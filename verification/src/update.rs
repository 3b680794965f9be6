//! The daily check for a newer release of Trail: when a check is due, what
//! the check keeps of the latest release, and whether that release is offered.
use vstd::prelude::*;

use chrono::Datelike;

use crate::text::{chars_of, string_of, strip_leading, strip_leading_chars};

verus! {

#[verifier::external_type_specification]
#[verifier::external_body]
pub struct ExVersion(semver::Version);

#[verifier::external_type_specification]
#[verifier::external_body]
pub struct ExVersionError(semver::Error);

/// Whether `semver::Version::parse` accepts `text`.
pub uninterp spec fn semver_accepts(text: Seq<char>) -> bool;

/// Whether the version written `a` is greater than the version written `b`
/// in the order of `semver::Version`.
pub uninterp spec fn semver_greater(a: Seq<char>, b: Seq<char>) -> bool;

/// Whether the versions written `a` and `b` are equal as `semver::Version`s.
pub uninterp spec fn semver_equal(a: Seq<char>, b: Seq<char>) -> bool;

/// A version number in the form of semantic versioning, kept with the text it
/// was read from.
#[derive(Debug)]
pub struct SemVer {
    text: String,
    version: semver::Version,
}

impl View for SemVer {
    type V = Seq<char>;

    /// The text the version was read from.
    closed spec fn view(&self) -> Seq<char> {
        self.text@
    }
}

/// A text that is no version number.
#[derive(Debug)]
pub struct InvalidVersion {
    pub text: String,
}

/// `semver::Version::parse`, which the crate documents to reject an empty
/// text; what else it accepts is left to the name `semver_accepts`.
#[verifier::external_body]
fn parse_version(text: &str) -> (r: Result<SemVer, semver::Error>)
    ensures
        r is Ok <==> semver_accepts(text@),
        text@.len() == 0 ==> r is Err,
        r matches Ok(v) ==> v@ == text@,
{
    match semver::Version::parse(text) {
        Ok(version) => Ok(SemVer { text: text.to_string(), version }),
        Err(e) => Err(e),
    }
}

/// `>` on `semver::Version` (a derived order); no version is greater than
/// itself.
#[verifier::external_body]
fn version_greater(a: &SemVer, b: &SemVer) -> (r: bool)
    ensures
        r == semver_greater(a@, b@),
        a@ == b@ ==> !r,
{
    a.version > b.version
}

/// `==` on `semver::Version` (a derived equality); a version read from the
/// same text is equal to itself.
#[verifier::external_body]
fn version_equal(a: &SemVer, b: &SemVer) -> (r: bool)
    ensures
        r == semver_equal(a@, b@),
        a@ == b@ ==> r,
{
    a.version == b.version
}

/// `chrono::Local::now().date_naive().num_days_from_ce()`: today's date in
/// the local time zone, as a day number; it depends on the clock, so
/// nothing is said of it.
#[verifier::external_body]
fn local_today() -> (r: i32) {
    chrono::Local::now().date_naive().num_days_from_ce()
}

impl SemVer {
    /// Reads a version number.
    pub fn parse(text: &str) -> (r: Result<SemVer, InvalidVersion>)
        ensures
            r is Ok <==> semver_accepts(text@),
            text@.len() == 0 ==> r is Err,
            match r {
                Ok(v) => v@ == text@,
                Err(e) => e.text@ == text@,
            },
    {
        match parse_version(text) {
            Ok(v) => Ok(v),
            Err(_) => Err(InvalidVersion { text: text.to_string() }),
        }
    }

    /// The text the version was read from.
    pub fn as_str(&self) -> (r: &str)
        ensures
            r@ == self@,
    {
        proof {
            reveal_view(self);
        }
        self.text.as_str()
    }

    /// Whether this version is greater than `other`.
    pub fn is_newer_than(&self, other: &SemVer) -> (r: bool)
        ensures
            r == semver_greater(self@, other@),
    {
        version_greater(self, other)
    }

    /// Whether this version equals `other`.
    pub fn same_as(&self, other: &SemVer) -> (r: bool)
        ensures
            r == semver_equal(self@, other@),
    {
        version_equal(self, other)
    }
}

proof fn reveal_view(v: &SemVer)
    ensures
        v@ == v.text@,
{
}

/// What the update check keeps between runs.
#[derive(Debug)]
pub struct UpdateCheck {
    /// The day of the last check, counted from the first day of the era.
    pub last_checked: i32,
    /// A release that the user chose not to be offered.
    pub ignored_version: Option<SemVer>,
    /// The latest release that a check found.
    pub latest_version: Option<SemVer>,
}

pub struct UpdateCheckView {
    pub last_checked: i32,
    pub ignored_version: Option<Seq<char>>,
    pub latest_version: Option<Seq<char>>,
}

/// The view of an optional version.
pub open spec fn version_view(v: Option<SemVer>) -> Option<Seq<char>> {
    match v {
        Some(s) => Some(s@),
        None => None,
    }
}

impl View for UpdateCheck {
    type V = UpdateCheckView;

    open spec fn view(&self) -> UpdateCheckView {
        UpdateCheckView {
            last_checked: self.last_checked,
            ignored_version: version_view(self.ignored_version),
            latest_version: version_view(self.latest_version),
        }
    }
}

/// The version that a release tag names: the tag without its leading `v`s.
pub open spec fn tag_version(tag: Seq<char>) -> Seq<char> {
    strip_leading(tag, 'v')
}

/// Whether a check that found `latest` offers it to a user of `local`: it is
/// newer and not the version the user ignores.
pub open spec fn offered(ignored: Option<Seq<char>>, latest: Seq<char>, local: Seq<char>) -> bool {
    !(ignored matches Some(i) && semver_equal(i, latest)) && semver_greater(latest, local)
}

/// A release is offered only when it is newer than the running version, and
/// never when its version is the ignored one.
pub proof fn law_offered_releases(ignored: Option<Seq<char>>, latest: Seq<char>, local: Seq<char>)
    ensures
        offered(ignored, latest, local) ==> semver_greater(latest, local),
        (ignored matches Some(i) && semver_equal(i, latest)) ==> !offered(ignored, latest, local),
{
}

/// Whether a check is due on day `today`: none was made that day.
pub open spec fn check_due(c: UpdateCheckView, today: i32) -> bool {
    today != c.last_checked
}

/// Once a check is recorded for a day, no other check is due that day.
pub proof fn law_one_check_a_day(c: UpdateCheckView, today: i32, latest: Seq<char>)
    ensures
        !check_due(UpdateCheckView { last_checked: today, latest_version: Some(latest), ..c }, today),
{
}

impl UpdateCheck {
    /// Whether a check is due on day `today`: none was made that day.
    pub fn needs_check(&self, today: i32) -> (r: bool)
        ensures
            r == check_due(self@, today),
    {
        today != self.last_checked
    }

    /// Today's day number, read from the clock, and whether a check is due
    /// on it.
    pub fn due_today(&self) -> (r: (i32, bool))
        ensures
            r.1 == check_due(self@, r.0),
    {
        let today = local_today();
        (today, self.needs_check(today))
    }

    /// Records a check made on day `today` that found the release tagged
    /// `tag_name`, for a user of version `local_version`; gives whether the
    /// release is offered. Where the tag or the local version is no version,
    /// nothing is recorded and the text is handed back.
    pub fn record_release(&mut self, today: i32, tag_name: &str, local_version: &str) -> (r:
        Result<bool, InvalidVersion>)
        ensures
            !semver_accepts(tag_version(tag_name@)) ==> (r matches Err(e) && e.text@ == tag_version(
                tag_name@,
            )),
            semver_accepts(tag_version(tag_name@)) && !semver_accepts(local_version@) ==> (r matches Err(
                e,
            ) && e.text@ == local_version@),
            r is Err ==> final(self)@ == old(self)@,
            semver_accepts(tag_version(tag_name@)) && semver_accepts(local_version@) ==> {
                &&& r matches Ok(offer) && offer == offered(
                    old(self)@.ignored_version,
                    tag_version(tag_name@),
                    local_version@,
                )
                &&& final(self)@ == (UpdateCheckView {
                    last_checked: today,
                    latest_version: Some(tag_version(tag_name@)),
                    ..old(self)@
                })
            },
    {
        let tag = chars_of(tag_name);
        let trimmed = string_of(strip_leading_chars(tag.as_slice(), 'v').as_slice());
        let latest = match SemVer::parse(trimmed.as_str()) {
            Ok(v) => v,
            Err(e) => {
                return Err(e);
            },
        };
        let local = match SemVer::parse(local_version) {
            Ok(v) => v,
            Err(e) => {
                return Err(e);
            },
        };
        let ignored = match &self.ignored_version {
            Some(i) => i.same_as(&latest),
            None => false,
        };
        let newer = latest.is_newer_than(&local);
        self.last_checked = today;
        self.latest_version = Some(latest);
        Ok(!ignored && newer)
    }
}

} // verus!
