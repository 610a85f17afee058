//! The connect / disconnect button and the serial port choice behind it.
//!
//! The machine is either connected or not; a click on its button, once
//! noticed, moves it to the other state and tells the caller to open the
//! chosen port or to close the open one.
use vstd::prelude::*;

verus! {

#[derive(Clone, Copy, PartialEq, Eq, Structural)]
pub enum Link {
    NotConnected,
    Connected,
}

/// What the caller has to do after a state change.
pub enum LinkAction {
    /// Open the serial port with this name.
    Open(String),
    /// Close the open port.
    Close,
}

/// The state a click leads to.
pub open spec fn next_link(link: Link) -> Link {
    match link {
        Link::NotConnected => Link::Connected,
        Link::Connected => Link::NotConnected,
    }
}

/// Two noticed clicks bring the machine back to where it was.
pub proof fn lemma_two_clicks_return(link: Link)
    ensures
        next_link(next_link(link)) == link,
        next_link(link) != link,
{
}

pub struct Factory {
    link: Link,
    clicked: bool,
    selected_port_index: Option<usize>,
    selected_port_name: String,
}

impl Factory {
    pub closed spec fn link(&self) -> Link {
        self.link
    }

    /// Whether a click on the button waits to be acted on.
    pub closed spec fn click_pending(&self) -> bool {
        self.clicked
    }

    pub closed spec fn port_index(&self) -> Option<usize> {
        self.selected_port_index
    }

    pub closed spec fn port_name(&self) -> Seq<char> {
        self.selected_port_name@
    }

    /// Not connected, no click pending, the first port of the list chosen,
    /// its name not known yet.
    pub fn new() -> (f: Factory)
        ensures
            f.link() == Link::NotConnected,
            !f.click_pending(),
            f.port_index() == Some(0usize),
            f.port_name() == Seq::<char>::empty(),
    {
        Factory {
            link: Link::NotConnected,
            clicked: false,
            selected_port_index: Some(0),
            selected_port_name: String::new(),
        }
    }

    /// Whether a port is open.
    pub fn is_connected(&self) -> (connected: bool)
        ensures
            connected == (self.link() == Link::Connected),
    {
        match self.link {
            Link::Connected => true,
            Link::NotConnected => false,
        }
    }

    /// The index of the chosen port in the list shown.
    pub fn selected_port(&self) -> (index: Option<usize>)
        ensures
            index == self.port_index(),
    {
        self.selected_port_index
    }

    /// The name of the chosen port.
    pub fn selected_port_name(&self) -> (name: String)
        ensures
            name@ == self.port_name(),
    {
        self.selected_port_name.clone()
    }

    /// The user chose entry `index` of the port list `names`.
    pub fn port_selected(&mut self, names: &Vec<String>, index: usize)
        requires
            index < names@.len(),
        ensures
            final(self).port_index() == Some(index),
            final(self).port_name() == names@[index as int]@,
            final(self).link() == old(self).link(),
            final(self).click_pending() == old(self).click_pending(),
    {
        self.selected_port_index = Some(index);
        self.selected_port_name = names[index].clone();
    }

    /// Records whether the button was clicked in the last frame.
    pub fn record_click(&mut self, clicked: bool)
        ensures
            final(self).click_pending() == clicked,
            final(self).link() == old(self).link(),
            final(self).port_index() == old(self).port_index(),
            final(self).port_name() == old(self).port_name(),
    {
        self.clicked = clicked;
    }

    /// Acts on a pending click: the machine moves to the other state and the
    /// action to perform is returned (open the chosen port, or close the open
    /// one). Without a pending click nothing changes.
    pub fn clicked(&mut self) -> (action: Option<LinkAction>)
        ensures
            old(self).click_pending() ==> {
                &&& final(self).link() == next_link(old(self).link())
                &&& !final(self).click_pending()
                &&& match action {
                    Some(LinkAction::Open(name)) => old(self).link() == Link::NotConnected
                        && name@ == old(self).port_name(),
                    Some(LinkAction::Close) => old(self).link() == Link::Connected,
                    None => false,
                }
            },
            !old(self).click_pending() ==> action is None && final(self).link() == old(
                self,
            ).link() && final(self).click_pending() == old(self).click_pending(),
            final(self).port_index() == old(self).port_index(),
            final(self).port_name() == old(self).port_name(),
    {
        if !self.clicked {
            return None;
        }
        self.clicked = false;
        match self.link {
            Link::NotConnected => {
                self.link = Link::Connected;
                Some(LinkAction::Open(self.selected_port_name.clone()))
            },
            Link::Connected => {
                self.link = Link::NotConnected;
                Some(LinkAction::Close)
            },
        }
    }
}

} // verus!
