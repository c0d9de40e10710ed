use vstd::prelude::*;

verus! {

/// A connection to the window system, held as the values the session reads:
/// the connection handle (0 once closed), the default screen and its root
/// window.
pub struct Display {
    connection: u64,
    screen: i32,
    root: u64,
}

impl Display {
    pub closed spec fn connection_spec(&self) -> u64 {
        self.connection
    }

    pub closed spec fn screen_spec(&self) -> i32 {
        self.screen
    }

    pub closed spec fn root_spec(&self) -> u64 {
        self.root
    }

    /// A display for an opened connection, its default screen and root window.
    pub fn from_parts(connection: u64, screen: i32, root: u64) -> (d: Self)
        ensures
            d.connection_spec() == connection,
            d.screen_spec() == screen,
            d.root_spec() == root,
    {
        Display { connection, screen, root }
    }

    pub fn root(&self) -> (r: u64)
        ensures
            r == self.root_spec(),
    {
        self.root
    }

    pub fn screen(&self) -> (r: i32)
        ensures
            r == self.screen_spec(),
    {
        self.screen
    }

    pub fn as_raw(&self) -> (r: u64)
        ensures
            r == self.connection_spec(),
    {
        self.connection
    }

    pub fn is_open(&self) -> (r: bool)
        ensures
            r == (self.connection_spec() != 0),
    {
        self.connection != 0
    }

    /// Marks the connection closed. Returns the handle that the caller has
    /// to close, or `None` when it was closed already.
    pub fn close(&mut self) -> (r: Option<u64>)
        ensures
            final(self).connection_spec() == 0,
            final(self).screen_spec() == old(self).screen_spec(),
            final(self).root_spec() == old(self).root_spec(),
            r == (if old(self).connection_spec() != 0 {
                Some(old(self).connection_spec())
            } else {
                None
            }),
    {
        if self.connection != 0 {
            let c = self.connection;
            self.connection = 0;
            Some(c)
        } else {
            None
        }
    }
}

/// Anything that stands for a window-system connection.
pub trait ToXDisplay {
    spec fn xdisplay_spec(&self) -> u64;

    fn to_xdisplay(&self) -> (r: u64)
        ensures
            r == self.xdisplay_spec(),
    ;
}

impl ToXDisplay for Display {
    open spec fn xdisplay_spec(&self) -> u64 {
        self.connection_spec()
    }

    fn to_xdisplay(&self) -> (r: u64) {
        self.as_raw()
    }
}

} // verus!
