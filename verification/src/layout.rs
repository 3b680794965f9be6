//! The arithmetic of the screen: which rows of the update table fit, where
//! the delete confirmation stands, and directories written with `~`.
use vstd::prelude::*;

use crate::app::{App, AppView, TableSelection, project_position};
use crate::model::Release;
use crate::text::{chars_of, copy_range, string_of};

verus! {

/// The height of a row of the update table, in lines.
pub const UPDATE_ROW_HEIGHT: u16 = 4;

/// Which rows of the update table are shown.
#[derive(Debug, Clone, Copy, PartialEq, Eq, Structural)]
pub struct TableViewport {
    /// How many rows fit below the header.
    pub visible_rows: usize,
    /// The largest first row that still fills the view.
    pub max_offset: usize,
    /// The first row shown.
    pub offset: usize,
    /// Whether a scrollbar is drawn: some rows fit and not all of them.
    pub scrollbar: bool,
}

/// The rows of a table of `rows` rows in an area `height` lines high, from
/// the first row `offset`, brought back so that the view stays full.
pub open spec fn viewport(height: u16, rows: usize, offset: usize) -> TableViewport {
    let visible = (if height >= 1 {
        (height - 1) as int
    } else {
        0
    }) / UPDATE_ROW_HEIGHT as int;
    let max_offset = if rows >= visible {
        rows - visible
    } else {
        0
    };
    TableViewport {
        visible_rows: visible as usize,
        max_offset: max_offset as usize,
        offset: if offset <= max_offset {
            offset
        } else {
            max_offset as usize
        },
        scrollbar: !(visible == 0 || rows <= visible),
    }
}

/// The rows of the update table that an area `height` lines high shows.
pub fn table_viewport(height: u16, rows: usize, offset: usize) -> (r: TableViewport)
    ensures
        r == viewport(height, rows, offset),
{
    let above = if height >= 1 {
        height - 1
    } else {
        0
    };
    let visible = (above / UPDATE_ROW_HEIGHT) as usize;
    let max_offset = if rows >= visible {
        rows - visible
    } else {
        0
    };
    TableViewport {
        visible_rows: visible,
        max_offset,
        offset: if offset <= max_offset {
            offset
        } else {
            max_offset
        },
        scrollbar: !(visible == 0 || rows <= visible),
    }
}

/// A rectangle of the screen.
#[derive(Debug, Clone, Copy, PartialEq, Eq, Structural)]
pub struct Area {
    pub x: u16,
    pub y: u16,
    pub width: u16,
    pub height: u16,
}

/// The delete confirmation: at most 60 columns by 8 lines, centred in `area`.
pub open spec fn popup(area: Area) -> Area {
    let width = if area.width <= 60 {
        area.width
    } else {
        60
    };
    let height = if area.height <= 8 {
        area.height
    } else {
        8
    };
    Area {
        x: (area.x + (area.width - width) / 2) as u16,
        y: (area.y + (area.height - height) / 2) as u16,
        width,
        height,
    }
}

/// Where the delete confirmation stands in `area`.
pub fn centered_popup(area: Area) -> (r: Area)
    requires
        area.x + area.width <= u16::MAX,
        area.y + area.height <= u16::MAX,
    ensures
        r == popup(area),
{
    let width = if area.width <= 60 {
        area.width
    } else {
        60
    };
    let height = if area.height <= 8 {
        area.height
    } else {
        8
    };
    Area {
        x: area.x + (area.width - width) / 2,
        y: area.y + (area.height - height) / 2,
        width,
        height,
    }
}

/// How a directory that the user typed is found.
#[derive(Debug)]
pub enum DirectoryPath {
    /// `~`: the home directory.
    Home,
    /// `~/rest`: `rest` inside the home directory.
    InHome(String),
    /// Any other path, as typed.
    AsTyped(String),
}

pub enum DirectoryPathView {
    Home,
    InHome(Seq<char>),
    AsTyped(Seq<char>),
}

impl View for DirectoryPath {
    type V = DirectoryPathView;

    open spec fn view(&self) -> DirectoryPathView {
        match self {
            DirectoryPath::Home => DirectoryPathView::Home,
            DirectoryPath::InHome(r) => DirectoryPathView::InHome(r@),
            DirectoryPath::AsTyped(p) => DirectoryPathView::AsTyped(p@),
        }
    }
}

/// `~` stands for the home directory, alone or before `/`.
pub open spec fn directory_path(d: Seq<char>) -> DirectoryPathView {
    if d == seq!['~'] {
        DirectoryPathView::Home
    } else if d.len() >= 2 && d[0] == '~' && d[1] == '/' {
        DirectoryPathView::InHome(d.skip(2))
    } else {
        DirectoryPathView::AsTyped(d)
    }
}

/// How the directory `d` is found.
pub fn resolve_directory(d: &str) -> (r: DirectoryPath)
    ensures
        r@ == directory_path(d@),
{
    let v = chars_of(d);
    if v.len() == 1 && v[0] == '~' {
        assert(v@ =~= seq!['~']);
        DirectoryPath::Home
    } else if v.len() >= 2 && v[0] == '~' && v[1] == '/' {
        assert(v@ != seq!['~']);
        let rest = copy_range(v.as_slice(), 2, v.len());
        assert(rest@ =~= v@.skip(2));
        DirectoryPath::InHome(string_of(rest.as_slice()))
    } else {
        assert(v@ == seq!['~'] ==> v.len() == 1 && v@[0] == '~');
        DirectoryPath::AsTyped(d.to_owned())
    }
}

impl App {
    /// Brings the first row of the update table back so that a table
    /// `height` lines high stays full; gives the rows shown.
    pub fn fit_update_table(&mut self, height: u16) -> (r: TableViewport)
        ensures
            r == viewport(height, old(self).updates.len(), old(self)@.update_selection.offset),
            final(self)@ == (AppView {
                update_selection: TableSelection { offset: r.offset, ..old(self)@.update_selection },
                ..old(self)@
            }),
    {
        let v = table_viewport(height, self.updates.len(), self.update_selection.offset);
        self.update_selection.offset = v.offset;
        v
    }

    /// The row of the project whose deletion awaits confirmation.
    pub fn pending_delete_row(&self) -> (r: Option<usize>)
        ensures
            match self@.pending_project_delete_id {
                Some(id) => match r {
                    Some(k) => project_position(self@.projects, id) == Some(k as nat) && k
                        < self.projects.len(),
                    None => project_position(self@.projects, id) is None,
                },
                None => r is None,
            },
    {
        match &self.pending_project_delete_id {
            Some(id) => self.project_position(id.as_str()),
            None => None,
        }
    }

    /// Takes a release that the update check found; once nothing is open,
    /// the popup that offers it is shown.
    pub fn note_release(&mut self, release: Option<Release>)
        ensures
            final(self)@.pending_release == match release {
                Some(r) => crate::app::release_view(Some(r)),
                None => old(self)@.pending_release,
            },
            final(self)@.show_update_popup == (old(self)@.show_update_popup || (
            final(self)@.pending_release is Some && old(self)@.idle())),
            final(self)@ == (AppView {
                pending_release: final(self)@.pending_release,
                show_update_popup: final(self)@.show_update_popup,
                ..old(self)@
            }),
    {
        if let Some(r) = release {
            self.pending_release = Some(r);
        }
        if self.pending_release.is_some() && self.is_idle() {
            self.show_update_popup = true;
        }
    }
}

} // verus!
