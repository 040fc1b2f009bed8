//! Highlight events: the annotation stream that a highlighter produces for a
//! source buffer, and the nesting that a renderer relies on.

use vstd::prelude::*;

verus! {

/// One step of an annotation stream.
#[derive(Debug, Clone, Copy, PartialEq, Eq, Structural)]
pub enum HighlightEvent {
    /// The scope with this index opens.
    EnterScope(usize),
    /// The scope opened last closes.
    ExitScope,
    /// The bytes `start..end` of the source, inside the scopes now open.
    Text { start: usize, end: usize },
}

/// The scopes that are open after `events`, outermost first. The stack is
/// empty before the first event; an exit pops it, and leaves an empty stack
/// as it is.
pub open spec fn open_scopes(events: Seq<HighlightEvent>) -> Seq<usize>
    decreases events.len(),
{
    if events.len() == 0 {
        Seq::empty()
    } else {
        let before = open_scopes(events.drop_last());
        match events.last() {
            HighlightEvent::EnterScope(index) => before.push(index),
            HighlightEvent::ExitScope => if before.len() > 0 {
                before.drop_last()
            } else {
                before
            },
            HighlightEvent::Text { .. } => before,
        }
    }
}

/// Whether the event at `position` keeps to the rules of a stream over a
/// source of `source_len` bytes: a text lies inside the source, and an exit
/// closes a scope that is open.
pub open spec fn event_fits(events: Seq<HighlightEvent>, position: int, source_len: int) -> bool {
    match events[position] {
        HighlightEvent::EnterScope(_) => true,
        HighlightEvent::ExitScope => open_scopes(events.take(position)).len() > 0,
        HighlightEvent::Text { start, end } => start <= end <= source_len,
    }
}

/// Whether `events` is a well-formed stream over a source of `source_len`
/// bytes: every event fits, and no scope is open after the last one.
pub open spec fn well_formed(events: Seq<HighlightEvent>, source_len: int) -> bool {
    &&& forall|position: int|
        0 <= position < events.len() ==> event_fits(events, position, source_len)
    &&& open_scopes(events).len() == 0
}

/// Every text of `events` lies inside a source of `source_len` bytes.
pub open spec fn texts_in_bounds(events: Seq<HighlightEvent>, source_len: int) -> bool {
    forall|position: int|
        0 <= position < events.len() ==> (#[trigger] events[position] matches HighlightEvent::Text {
            start,
            end,
        } ==> start <= end <= source_len)
}

/// No scope is open before the first event of a stream, and none after the
/// last event of a well-formed one.
pub proof fn lemma_no_scope_open_at_ends(events: Seq<HighlightEvent>, source_len: int)
    requires
        well_formed(events, source_len),
    ensures
        open_scopes(events.take(0)) == Seq::<usize>::empty(),
        open_scopes(events) == Seq::<usize>::empty(),
{
}

/// A well-formed stream keeps its texts inside the source.
pub proof fn lemma_well_formed_in_bounds(events: Seq<HighlightEvent>, source_len: int)
    requires
        well_formed(events, source_len),
    ensures
        texts_in_bounds(events, source_len),
{
    assert forall|position: int| 0 <= position < events.len() implies (
    #[trigger] events[position] matches HighlightEvent::Text { start, end } ==> start <= end
        <= source_len) by {
        assert(event_fits(events, position, source_len));
    }
}

/// Runs the stack of open scopes over `events` and tells whether the stream
/// is well-formed for a source of `source_len` bytes.
pub fn check_events(events: &Vec<HighlightEvent>, source_len: usize) -> (ok: bool)
    ensures
        ok == well_formed(events@, source_len as int),
{
    let mut open: Vec<usize> = Vec::new();
    let mut position: usize = 0;
    while position < events.len()
        invariant
            position <= events.len(),
            open@ == open_scopes(events@.take(position as int)),
            forall|earlier: int|
                0 <= earlier < position ==> event_fits(events@, earlier, source_len as int),
        decreases events.len() - position,
    {
        proof {
            let next = events@.take(position + 1);
            assert(next.drop_last() == events@.take(position as int));
        }
        match events[position] {
            HighlightEvent::EnterScope(index) => {
                open.push(index);
            },
            HighlightEvent::ExitScope => {
                if open.len() == 0 {
                    assert(!event_fits(events@, position as int, source_len as int));
                    return false;
                }
                open.pop();
            },
            HighlightEvent::Text { start, end } => {
                if start > end || end > source_len {
                    assert(!event_fits(events@, position as int, source_len as int));
                    return false;
                }
            },
        }
        position += 1;
    }
    assert(events@.take(position as int) == events@);
    open.len() == 0
}

} // verus!
