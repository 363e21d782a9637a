use vstd::prelude::*;

verus! {

/// The name of the instance variable through which the invoker object
/// reaches its action.
pub const ACTION_CALLBACK_PTR: &'static str = "rstTargetActionPtr";

/// The name under which the invoker class is registered.
pub const INVOKER_CLASS_NAME: &'static str = "RSTTargetActionHandler";

/// The class the invoker class derives from.
pub const INVOKER_SUPERCLASS_NAME: &'static str = "NSObject";

/// The selector the control sends to its target.
pub const PERFORM_SELECTOR: &'static str = "perform:";

/// An opaque Objective-C object, only ever handled behind a pointer.
pub struct Object {
    _priv: [u8; 0],
}

/// The handle returned when a control has been given an action.
#[derive(Debug)]
pub struct TargetActionHandler {}

/// The callback a control runs when it is clicked; the glue stores it
/// boxed, as `Action<Box<dyn Fn() + Send + Sync>>`.
pub struct Action<F>(pub F);

impl<F> Action<F> {
    /// How the callback is shown when debugging: just its type's name, since
    /// the closure itself cannot be shown.
    pub fn debug_text(&self) -> (r: String)
        ensures
            r@ == seq!['A', 'c', 't', 'i', 'o', 'n'],
    {
        proof {
            reveal_strlit("Action");
        }
        "Action".to_owned()
    }
}

/// The invoker class, registered at most once and then reused.
pub struct ClassSlot<C> {
    class: Option<C>,
}

impl<C> View for ClassSlot<C> {
    type V = Option<C>;

    closed spec fn view(&self) -> Option<C> {
        self.class
    }
}

impl<C> ClassSlot<C> {
    /// A slot in which no class has been registered yet.
    pub fn new() -> (r: Self)
        ensures
            r@ is None,
    {
        ClassSlot { class: None }
    }

    /// Whether the class still has to be registered.
    pub fn needs_registration(&self) -> (r: bool)
        ensures
            r == self@ is None,
    {
        self.class.is_none()
    }

    /// Records the class that has just been registered.
    pub fn store(&mut self, class: C)
        requires
            old(self)@ is None,
        ensures
            final(self)@ == Some(class),
    {
        self.class = Some(class);
    }

    /// The registered class, if any.
    pub fn get(&self) -> (r: Option<&C>)
        ensures
            r is Some == self@ is Some,
            r matches Some(c) ==> *c == self@.unwrap(),
    {
        match &self.class {
            Some(c) => Some(c),
            None => None,
        }
    }
}

} // verus!
