//! A leaf node with an internal asynchronous source: a wake notification
//! (a timer firing, a channel becoming readable) recorded by a [`FlagWaker`]
//! makes the node ready on its next readiness check.

use vstd::prelude::*;

use crate::node::text_node::{is_insert, is_modify, is_remove};
use crate::node::{Change, Element, Node, Readiness, ViewContext};

verus! {

/// A wake adapter: remembers whether at least one wake notification arrived
/// since the flag was last checked, and clears on check, so a wake that
/// arrives between two readiness checks is never lost.
///
/// Hook storage and elements are mutated only inside the owning instance's
/// own call stack, so the flag needs no further guard here; an embedding
/// whose notifications originate on other threads guards the flag and chains
/// a delegate wake handle to it.
pub struct FlagWaker {
    /// Whether a wake notification arrived since the last check.
    pub is_ready: bool,
}

impl FlagWaker {
    /// A quiet flag: nothing has fired yet.
    pub fn new() -> (r: FlagWaker)
        ensures
            !r.is_ready,
    {
        FlagWaker { is_ready: false }
    }

    /// A wake notification arrived: the next check will observe it.
    pub fn wake(&mut self)
        ensures
            final(self).is_ready,
    {
        self.is_ready = true;
    }

    /// Check-and-clear: reports whether at least one wake arrived since the
    /// last check, and resets the flag for the next interval.
    pub fn take(&mut self) -> (r: bool)
        ensures
            r == old(self).is_ready,
            !final(self).is_ready,
    {
        let r = self.is_ready;
        self.is_ready = false;
        r
    }
}

/// Description of a surface entry driven by an external event source.
pub struct SourceNode {
    /// Identity of the surface entry this node drives.
    pub id: u64,
    /// The content the entry should show when the source fires.
    pub content: String,
}

/// Persistent state of a [`SourceNode`]: its wake flag and what the surface
/// currently shows.
pub struct SourceElement {
    /// Records wake notifications from the node's event source; the source
    /// side calls [`FlagWaker::wake`] on it.
    pub waker: FlagWaker,
    /// Identity of the surface entry, fixed at build time.
    pub id: u64,
    /// The content last emitted to the surface.
    pub last: Option<String>,
}

impl SourceElement {
    /// What the surface shows for this entry, if anything.
    pub open spec fn shown(self) -> Option<Seq<char>> {
        match self.last {
            None => None,
            Some(s) => Some(s@),
        }
    }
}

impl Element for SourceElement {
    /// Tear down: remove the surface entry if one was ever emitted.
    fn remove(&self) -> (r: Option<Vec<Change>>)
        ensures
            self.shown() is Some ==> (r matches Some(cs) && cs@.len() == 1 && is_remove(
                cs@[0],
                self.id,
            )),
            self.shown() is None ==> r is None,
    {
        match &self.last {
            Some(_) => {
                let mut changes: Vec<Change> = Vec::new();
                changes.push(Change::Remove { id: self.id });
                Some(changes)
            },
            None => None,
        }
    }
}

impl Node for SourceNode {
    type Element = SourceElement;

    open spec fn wf_element(element: &SourceElement) -> bool {
        true
    }

    fn build(&self) -> (element: SourceElement)
        ensures
            element.id == self.id,
            element.shown() is None,
            !element.waker.is_ready,
    {
        SourceElement { waker: FlagWaker::new(), id: self.id, last: None }
    }

    /// Ready when upstream forced a change or the internal source fired
    /// since the last check; the flag clears on every check, so one wake
    /// yields exactly one ready cycle.
    fn poll_ready(&self, element: &mut SourceElement, is_changed: bool) -> (r: Readiness)
        ensures
            r is Ready <==> (is_changed || old(element).waker.is_ready),
            !final(element).waker.is_ready,
            final(element).id == old(element).id,
            final(element).last == old(element).last,
    {
        let fired = element.waker.take();
        if is_changed || fired {
            Readiness::Ready
        } else {
            Readiness::Pending
        }
    }

    /// Emit the minimal change, exactly as a text leaf does.
    fn view(&self, cx: &mut ViewContext, element: &mut SourceElement) -> (r: Option<Vec<Change>>)
        ensures
            final(element).id == old(element).id,
            final(element).waker == old(element).waker,
            final(element).shown() == Some(self.content@),
            old(element).shown() is None ==> (r matches Some(cs) && cs@.len() == 1 && is_insert(
                cs@[0],
                old(element).id,
                self.content@,
            )),
            (old(element).shown() matches Some(t) && t != self.content@) ==> (r matches Some(cs)
                && cs@.len() == 1 && is_modify(cs@[0], old(element).id, self.content@)),
            old(element).shown() == Some(self.content@) ==> r is None && *final(element) == *old(
                element,
            ),
    {
        let same = match &element.last {
            None => false,
            Some(shown) => *shown == self.content,
        };
        if same {
            None
        } else {
            let was_empty = element.last.is_none();
            element.last = Some(self.content.clone());
            let mut changes: Vec<Change> = Vec::new();
            if was_empty {
                changes.push(Change::Insert { id: element.id, content: self.content.clone() });
            } else {
                changes.push(Change::Modify { id: element.id, content: self.content.clone() });
            }
            Some(changes)
        }
    }
}

} // verus!
