//! A leaf node: one surface entry with a text content. It has no internal
//! asynchronous source, so it only ever becomes ready when upstream forces a
//! change.

use vstd::prelude::*;

use crate::node::{Change, Element, Node, Readiness, ViewContext};

verus! {

/// The change `c` inserts entry `id` showing `content`.
pub open spec fn is_insert(c: Change, id: u64, content: Seq<char>) -> bool {
    c matches Change::Insert { id: i, content: s } && i == id && s@ == content
}

/// The change `c` rewrites entry `id` to show `content`.
pub open spec fn is_modify(c: Change, id: u64, content: Seq<char>) -> bool {
    c matches Change::Modify { id: i, content: s } && i == id && s@ == content
}

/// The change `c` tears down entry `id`.
pub open spec fn is_remove(c: Change, id: u64) -> bool {
    c matches Change::Remove { id: i } && i == id
}

/// Description of one text surface entry.
pub struct TextNode {
    /// Identity of the surface entry this node drives.
    pub id: u64,
    /// The content the entry should show.
    pub content: String,
}

/// Persistent state of a [`TextNode`]: what the surface currently shows.
pub struct TextElement {
    /// Identity of the surface entry, fixed at build time.
    pub id: u64,
    /// The content last emitted to the surface; `None` before the first
    /// render reaches the surface.
    pub last: Option<String>,
}

impl TextElement {
    /// What the surface shows for this entry, if anything.
    pub open spec fn shown(self) -> Option<Seq<char>> {
        match self.last {
            None => None,
            Some(s) => Some(s@),
        }
    }
}

impl Element for TextElement {
    /// Tear down: remove the surface entry if one was ever emitted.
    fn remove(&self) -> (r: Option<Vec<Change>>)
        ensures
            self.shown() is Some ==> (r matches Some(cs) && cs@.len() == 1 && is_remove(
                cs@[0],
                self.id,
            )),
            self.shown() is None ==> r is None,
    {
        match &self.last {
            Some(_) => {
                let mut changes: Vec<Change> = Vec::new();
                changes.push(Change::Remove { id: self.id });
                Some(changes)
            },
            None => None,
        }
    }
}

impl Node for TextNode {
    type Element = TextElement;

    open spec fn wf_element(element: &TextElement) -> bool {
        true
    }

    fn build(&self) -> (element: TextElement)
        ensures
            element.id == self.id,
            element.shown() is None,
    {
        TextElement { id: self.id, last: None }
    }

    /// No internal asynchronous source: ready exactly when upstream forced a
    /// change, pending indefinitely otherwise.
    fn poll_ready(&self, element: &mut TextElement, is_changed: bool) -> (r: Readiness)
        ensures
            r is Ready <==> is_changed,
            *final(element) == *old(element),
    {
        if is_changed {
            Readiness::Ready
        } else {
            Readiness::Pending
        }
    }

    /// Emit the minimal change: an insert the first time, a content rewrite
    /// when the content differs from what the surface shows, nothing when the
    /// surface is already current.
    fn view(&self, cx: &mut ViewContext, element: &mut TextElement) -> (r: Option<Vec<Change>>)
        ensures
            final(element).id == old(element).id,
            final(element).shown() == Some(self.content@),
            old(element).shown() is None ==> (r matches Some(cs) && cs@.len() == 1 && is_insert(
                cs@[0],
                old(element).id,
                self.content@,
            )),
            (old(element).shown() matches Some(t) && t != self.content@) ==> (r matches Some(cs)
                && cs@.len() == 1 && is_modify(cs@[0], old(element).id, self.content@)),
            old(element).shown() == Some(self.content@) ==> r is None && *final(element) == *old(
                element,
            ),
    {
        let same = match &element.last {
            None => false,
            Some(shown) => *shown == self.content,
        };
        if same {
            None
        } else {
            let was_empty = element.last.is_none();
            element.last = Some(self.content.clone());
            let mut changes: Vec<Change> = Vec::new();
            if was_empty {
                changes.push(Change::Insert { id: element.id, content: self.content.clone() });
            } else {
                changes.push(Change::Modify { id: element.id, content: self.content.clone() });
            }
            Some(changes)
        }
    }
}

} // verus!
