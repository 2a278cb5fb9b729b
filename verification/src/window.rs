//! The record of a focused window.

use vstd::prelude::*;

verus! {

/// What is known of a window at the moment it was found to hold the focus.
///
/// The record is a snapshot: it keeps no handle to the window, and nothing
/// changes it afterwards.
#[derive(Debug, PartialEq, Eq)]
pub struct Window {
    /// The window's name.
    pub title: String,
    /// The instance name and the class name of the application.
    pub class: (String, String),
}

/// The text of a [`Window`].
pub struct WindowView {
    pub title: Seq<char>,
    pub class: (Seq<char>, Seq<char>),
}

impl View for Window {
    type V = WindowView;

    open spec fn view(&self) -> WindowView {
        WindowView { title: self.title@, class: (self.class.0@, self.class.1@) }
    }
}

impl Clone for Window {
    fn clone(&self) -> (copy: Window)
        ensures
            copy == *self,
    {
        Window { title: self.title.clone(), class: (self.class.0.clone(), self.class.1.clone()) }
    }
}

} // verus!
