//! The output sink: an ordered list of styled-text events.
//!
//! The renderer never performs I/O; it appends [`OutEvent`]s to a
//! [`Sink`], and the unverified shell replays them onto a real
//! terminal stream (set-color, write, reset). Contracts speak about
//! the sink through its view, a sequence of [`EventV`] values in which
//! text is a sequence of characters.

use vstd::prelude::*;

use crate::style::Style;

verus! {

/// One output event, as handed to the terminal layer.
#[derive(Debug, PartialEq)]
pub enum OutEvent {
    /// Set the stream's style.
    SetStyle(Style),
    /// Write a run of text.
    Text(String),
    /// Reset the stream's style to its default.
    Reset,
}

/// The specification-level form of an [`OutEvent`].
pub enum EventV {
    SetStyle(Style),
    Text(Seq<char>),
    Reset,
}

impl View for OutEvent {
    type V = EventV;

    open spec fn view(&self) -> EventV {
        match self {
            OutEvent::SetStyle(s) => EventV::SetStyle(*s),
            OutEvent::Text(t) => EventV::Text(t@),
            OutEvent::Reset => EventV::Reset,
        }
    }
}

/// An ordered collection of output events.
pub struct Sink {
    pub events: Vec<OutEvent>,
}

impl View for Sink {
    type V = Seq<EventV>;

    open spec fn view(&self) -> Seq<EventV> {
        self.events@.map_values(|e: OutEvent| e@)
    }
}

impl Sink {
    /// An empty sink.
    pub fn new() -> (r: Sink)
        ensures
            r@ == Seq::<EventV>::empty(),
    {
        let r = Sink { events: Vec::new() };
        proof {
            assert(r@ =~= Seq::<EventV>::empty());
        }
        r
    }

    /// The number of events recorded so far.
    pub fn len(&self) -> (r: usize)
        ensures
            r == self@.len(),
    {
        self.events.len()
    }

    /// Append a set-style event.
    pub fn set_style(&mut self, s: Style)
        ensures
            final(self)@ == old(self)@.push(EventV::SetStyle(s)),
    {
        self.events.push(OutEvent::SetStyle(s));
        proof {
            assert(self@ =~= old(self)@.push(EventV::SetStyle(s)));
        }
    }

    /// Append a text event from a borrowed string.
    pub fn text_str(&mut self, t: &str)
        ensures
            final(self)@ == old(self)@.push(EventV::Text(t@)),
    {
        self.events.push(OutEvent::Text(t.to_owned()));
        proof {
            assert(self@ =~= old(self)@.push(EventV::Text(t@)));
        }
    }

    /// Append a text event, taking ownership of the string.
    pub fn text(&mut self, t: String)
        ensures
            final(self)@ == old(self)@.push(EventV::Text(t@)),
    {
        let ghost v = t@;
        self.events.push(OutEvent::Text(t));
        proof {
            assert(self@ =~= old(self)@.push(EventV::Text(v)));
        }
    }

    /// Append a style-reset event.
    pub fn reset(&mut self)
        ensures
            final(self)@ == old(self)@.push(EventV::Reset),
    {
        self.events.push(OutEvent::Reset);
        proof {
            assert(self@ =~= old(self)@.push(EventV::Reset));
        }
    }
}

} // verus!
