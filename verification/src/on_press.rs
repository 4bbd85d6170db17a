//! The click handler: a fixed message, or a producer asked at click time.

use vstd::prelude::*;

verus! {

/// How a button obtains the message it publishes on a click.
pub enum OnPress<Message, F> {
    /// Publish a copy of this message.
    Direct(Message),
    /// Ask this producer for the message.
    Closure(F),
}

impl<Message: Clone, F: Fn() -> Message> OnPress<Message, F> {
    /// The handler may be asked for a message.
    pub open spec fn callable(&self) -> bool {
        match self {
            OnPress::Direct(_) => true,
            OnPress::Closure(f) => f.requires(()),
        }
    }

    /// `message` is one the handler may hand out: a clone of the fixed
    /// message, or a value the producer may return.
    pub open spec fn yields(&self, message: Message) -> bool {
        match self {
            OnPress::Direct(fixed) => cloned(*fixed, message),
            OnPress::Closure(f) => f.ensures((), message),
        }
    }

    /// Resolves the handler to the message to publish.
    pub fn get(&self) -> (message: Message)
        requires
            self.callable(),
        ensures
            self.yields(message),
    {
        match self {
            OnPress::Direct(fixed) => fixed.clone(),
            OnPress::Closure(f) => f(),
        }
    }
}

} // verus!
