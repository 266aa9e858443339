use vstd::prelude::*;

verus! {

/// The mathematical value of a tab: its five columns.
pub struct TabView {
    pub id: Seq<char>,
    pub title: Seq<char>,
    pub content: Seq<char>,
    pub parent_id: Option<Seq<char>>,
    pub created_at: int,
}

/// One row of the `tabs` table.
///
/// `id` is chosen by the client and is the primary key; `parent_id` may name
/// another tab, which need not exist; `created_at` is an epoch timestamp set
/// when the tab is first saved.
#[derive(Debug, PartialEq, Eq)]
pub struct Tab {
    pub id: String,
    pub title: String,
    pub content: String,
    pub parent_id: Option<String>,
    pub created_at: i64,
}

pub open spec fn opt_view(o: Option<String>) -> Option<Seq<char>> {
    match o {
        Some(s) => Some(s@),
        None => None,
    }
}

impl View for Tab {
    type V = TabView;

    open spec fn view(&self) -> TabView {
        TabView {
            id: self.id@,
            title: self.title@,
            content: self.content@,
            parent_id: opt_view(self.parent_id),
            created_at: self.created_at as int,
        }
    }
}

/// The row that the upsert leaves behind when a row with the same id is
/// already stored: title, content and parent come from the new payload, while
/// the id and the creation time stay as stored.
pub open spec fn updated_row(stored: TabView, incoming: TabView) -> TabView {
    TabView {
        id: stored.id,
        title: incoming.title,
        content: incoming.content,
        parent_id: incoming.parent_id,
        created_at: stored.created_at,
    }
}

fn clone_opt_string(o: &Option<String>) -> (r: Option<String>)
    ensures
        r == *o,
{
    match o {
        Some(s) => Some(s.clone()),
        None => None,
    }
}

impl Clone for Tab {
    fn clone(&self) -> (r: Self)
        ensures
            r == *self,
    {
        Tab {
            id: self.id.clone(),
            title: self.title.clone(),
            content: self.content.clone(),
            parent_id: clone_opt_string(&self.parent_id),
            created_at: self.created_at,
        }
    }
}

impl Tab {
    /// Builds a tab from its five columns.
    pub fn new(
        id: String,
        title: String,
        content: String,
        parent_id: Option<String>,
        created_at: i64,
    ) -> (r: Tab)
        ensures
            r.id == id,
            r.title == title,
            r.content == content,
            r.parent_id == parent_id,
            r.created_at == created_at,
    {
        Tab { id, title, content, parent_id, created_at }
    }

    /// The row stored after `incoming` is saved over `self`, which has the
    /// same id: the update clause sets title, content and parent, and leaves
    /// the creation time alone.
    pub fn updated_by(&self, incoming: Tab) -> (r: Tab)
        ensures
            r@ == updated_row(self@, incoming@),
    {
        Tab {
            id: self.id.clone(),
            title: incoming.title,
            content: incoming.content,
            parent_id: incoming.parent_id,
            created_at: self.created_at,
        }
    }
}

} // verus!
