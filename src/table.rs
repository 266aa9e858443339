use vstd::prelude::*;

use crate::tab::{updated_row, Tab, TabView};

verus! {

/// Every row of `m` is filed under its own id.
pub open spec fn keyed_by_id(m: Map<Seq<char>, TabView>) -> bool {
    forall|k: Seq<char>| #[trigger] m.contains_key(k) ==> m[k].id == k
}

/// The table after `t` is saved into `m`: a new id inserts `t` as given; a
/// stored id gets the new title, content and parent, and keeps its creation
/// time.
pub open spec fn saved(m: Map<Seq<char>, TabView>, t: TabView) -> Map<Seq<char>, TabView> {
    if m.contains_key(t.id) {
        m.insert(t.id, updated_row(m[t.id], t))
    } else {
        m.insert(t.id, t)
    }
}

/// The creation time that the row of `t.id` shows once `t` is saved into `m`:
/// that of the first save of this id.
pub open spec fn first_created_at(m: Map<Seq<char>, TabView>, t: TabView) -> int {
    if m.contains_key(t.id) {
        m[t.id].created_at
    } else {
        t.created_at
    }
}

/// `s` lists the rows of `m`, each once, in some order.
pub open spec fn is_listing(s: Seq<TabView>, m: Map<Seq<char>, TabView>) -> bool {
    &&& s.len() == m.len()
    &&& forall|i: int, j: int| 0 <= i < j < s.len() ==> s[i].id != s[j].id
    &&& forall|i: int| 0 <= i < s.len() ==> m.contains_key(#[trigger] s[i].id) && m[s[i].id] == s[i]
    &&& forall|k: Seq<char>| #[trigger] m.contains_key(k) ==> exists|i: int| 0 <= i < s.len() && s[i].id == k
}

pub open spec fn views(s: Seq<Tab>) -> Seq<TabView> {
    s.map_values(|t: Tab| t@)
}

/// The `tabs` table: at most one row per id, no deletion.
pub struct TabTable {
    rows: Vec<Tab>,
    contents: Ghost<Map<Seq<char>, TabView>>,
}

impl View for TabTable {
    type V = Map<Seq<char>, TabView>;

    closed spec fn view(&self) -> Map<Seq<char>, TabView> {
        self.contents@
    }
}

impl TabTable {
    pub closed spec fn wf(&self) -> bool {
        &&& self.contents@.dom().finite()
        &&& keyed_by_id(self.contents@)
        &&& is_listing(views(self.rows@), self.contents@)
    }

    /// A table that is well formed has each row under its id, and finitely many.
    pub proof fn well_keyed(&self)
        requires
            self.wf(),
        ensures
            keyed_by_id(self@),
            self@.dom().finite(),
    {
    }

    /// An empty table.
    pub fn new() -> (r: TabTable)
        ensures
            r.wf(),
            r@ == Map::<Seq<char>, TabView>::empty(),
    {
        let r = TabTable { rows: Vec::new(), contents: Ghost(Map::empty()) };
        assert(views(r.rows@) =~= Seq::<TabView>::empty());
        r
    }

    /// The number of rows.
    pub fn len(&self) -> (r: usize)
        requires
            self.wf(),
        ensures
            r == self@.len(),
    {
        self.rows.len()
    }

    /// Every stored row, each once, in storage order.
    pub fn list(&self) -> (r: Vec<Tab>)
        requires
            self.wf(),
        ensures
            is_listing(views(r@), self@),
    {
        let mut out: Vec<Tab> = Vec::new();
        let mut i: usize = 0;
        while i < self.rows.len()
            invariant
                i <= self.rows@.len(),
                out@ =~= self.rows@.take(i as int),
            decreases self.rows@.len() - i,
        {
            out.push(self.rows[i].clone());
            i += 1;
        }
        assert(self.rows@.take(i as int) =~= self.rows@);
        out
    }

    /// The index of the row whose id is `id`, if there is one.
    fn position_of(&self, id: &String) -> (r: Option<usize>)
        requires
            self.wf(),
        ensures
            match r {
                Some(i) => i < self.rows@.len() && self.rows@[i as int].id@ == id@,
                None => !self@.contains_key(id@),
            },
    {
        let mut i: usize = 0;
        while i < self.rows.len()
            invariant
                self.wf(),
                i <= self.rows@.len(),
                forall|j: int| 0 <= j < i ==> (#[trigger] self.rows@[j]).id@ != id@,
            decreases self.rows@.len() - i,
        {
            if self.rows[i].id == *id {
                return Some(i);
            }
            i += 1;
        }
        proof {
            let s = views(self.rows@);
            if self@.contains_key(id@) {
                let j = choose|j: int| 0 <= j < s.len() && s[j].id == id@;
                assert(self.rows@[j].id@ == id@);
            }
        }
        None
    }

    /// Saves `tab`: inserts it when no row has its id, else sets that row's
    /// title, content and parent to the new ones and keeps its creation time.
    pub fn upsert(&mut self, tab: Tab)
        requires
            old(self).wf(),
        ensures
            final(self).wf(),
            final(self)@ == saved(old(self)@, tab@),
    {
        let ghost m = self.contents@;
        let ghost s0 = views(self.rows@);
        let ghost t = tab@;
        match self.position_of(&tab.id) {
            Some(i) => {
                assert(s0[i as int] == self.rows@[i as int]@);
                let merged = self.rows[i].updated_by(tab);
                self.rows.set(i, merged);
                proof {
                    assert(m.contains_key(t.id) && m[t.id] == s0[i as int]);
                    let m2 = m.insert(t.id, merged@);
                    assert(m2.dom() =~= m.dom());
                    self.contents = Ghost(m2);
                    let s = views(self.rows@);
                    assert(s =~= s0.update(i as int, merged@));
                    assert forall|k: Seq<char>| #[trigger] m2.contains_key(k) implies exists|j: int|
                        0 <= j < s.len() && s[j].id == k by {
                        let j = choose|j: int| 0 <= j < s0.len() && s0[j].id == k;
                        assert(s[j].id == k);
                    }
                }
            },
            None => {
                self.rows.push(tab);
                proof {
                    let m2 = m.insert(t.id, t);
                    self.contents = Ghost(m2);
                    let s = views(self.rows@);
                    assert(s =~= s0.push(t));
                    assert forall|k: Seq<char>| #[trigger] m2.contains_key(k) implies exists|j: int|
                        0 <= j < s.len() && s[j].id == k by {
                        if k != t.id {
                            let j = choose|j: int| 0 <= j < s0.len() && s0[j].id == k;
                            assert(s[j].id == k);
                        } else {
                            assert(s[s.len() - 1].id == k);
                        }
                    }
                }
            },
        }
    }
}

/// Once `t` is saved, any listing of the table holds a row with the id, title,
/// content and parent that `t` was saved with, and with the creation time of
/// the first save of that id.
pub proof fn saved_tab_is_listed(m: Map<Seq<char>, TabView>, t: TabView, s: Seq<TabView>)
    requires
        keyed_by_id(m),
        is_listing(s, saved(m, t)),
    ensures
        exists|i: int|
            0 <= i < s.len() && s[i] == (TabView {
                id: t.id,
                title: t.title,
                content: t.content,
                parent_id: t.parent_id,
                created_at: first_created_at(m, t),
            }),
{
    let m2 = saved(m, t);
    assert(m2.contains_key(t.id));
    let i = choose|i: int| 0 <= i < s.len() && s[i].id == t.id;
    assert(m2[s[i].id] == s[i]);
}

/// Saving the same tab twice leaves the table as one save did: no second row,
/// and the same count.
pub proof fn save_is_idempotent(m: Map<Seq<char>, TabView>, t: TabView)
    ensures
        saved(saved(m, t), t) == saved(m, t),
        saved(saved(m, t), t).len() == saved(m, t).len(),
{
    let m1 = saved(m, t);
    assert(updated_row(m1[t.id], t) == m1[t.id]);
    assert(saved(m1, t) =~= m1);
}

/// A save adds a row exactly when its id is new, so the count grows by one
/// for a new id and stays for a stored one.
pub proof fn save_count(m: Map<Seq<char>, TabView>, t: TabView)
    requires
        m.dom().finite(),
    ensures
        saved(m, t).len() == if m.contains_key(t.id) { m.len() } else { m.len() + 1 },
{
    if m.contains_key(t.id) {
        assert(saved(m, t).dom() =~= m.dom());
    }
}

/// Saving over a stored id sets its title, content and parent to the new ones,
/// keeps its creation time, and leaves every other row as it was.
pub proof fn save_updates_stored_row(m: Map<Seq<char>, TabView>, t: TabView)
    requires
        keyed_by_id(m),
        m.contains_key(t.id),
    ensures
        saved(m, t).contains_key(t.id),
        saved(m, t)[t.id].id == t.id,
        saved(m, t)[t.id].title == t.title,
        saved(m, t)[t.id].content == t.content,
        saved(m, t)[t.id].parent_id == t.parent_id,
        saved(m, t)[t.id].created_at == m[t.id].created_at,
        saved(m, t).dom() == m.dom(),
        forall|k: Seq<char>| #[trigger] m.contains_key(k) && k != t.id ==> saved(m, t)[k] == m[k],
{
    assert(saved(m, t).dom() =~= m.dom());
}

/// The parent is stored as given: no parent stays no parent, and a parent id
/// that names no stored tab is kept all the same.
pub proof fn parent_kept_as_given(m: Map<Seq<char>, TabView>, t: TabView)
    ensures
        saved(m, t).contains_key(t.id),
        saved(m, t)[t.id].parent_id == t.parent_id,
        t.parent_id is None ==> saved(m, t)[t.id].parent_id is None,
        forall|p: Seq<char>|
            t.parent_id == Some(p) && !m.contains_key(p) ==> saved(m, t)[t.id].parent_id == Some(p),
{
}

} // verus!
