use vstd::prelude::*;

verus! {

/// A chat client: who it speaks as, which server it speaks to, and the
/// connection it holds open, if any. `C` is the connection's type.
pub struct Client<C> {
    username: String,
    server: String,
    connection: Option<C>,
}

impl<C> Client<C> {
    /// The username the client sends as.
    pub closed spec fn user(&self) -> Seq<char> {
        self.username@
    }

    /// The address of the server.
    pub closed spec fn address(&self) -> Seq<char> {
        self.server@
    }

    /// The open connection, if any.
    pub closed spec fn link(&self) -> Option<C> {
        self.connection
    }

    /// Creates a client with no open connection; one is opened on first use.
    pub fn new(username: String, server: String) -> (r: Client<C>)
        ensures
            r.user() == username@,
            r.address() == server@,
            r.link() == None::<C>,
    {
        Client { username, server, connection: None }
    }

    /// The username the client sends as.
    pub fn username(&self) -> (r: &str)
        ensures
            r@ == self.user(),
    {
        self.username.as_str()
    }

    /// The address of the server.
    pub fn server(&self) -> (r: &str)
        ensures
            r@ == self.address(),
    {
        self.server.as_str()
    }

    /// Tells whether a connection is open, so that a send or receive reuses it.
    pub fn is_connected(&self) -> (r: bool)
        ensures
            r == self.link() is Some,
    {
        self.connection.is_some()
    }

    /// Keeps a newly opened connection for the next send and receive.
    pub fn attach(&mut self, connection: C)
        ensures
            final(self).link() == Some(connection),
            final(self).user() == old(self).user(),
            final(self).address() == old(self).address(),
    {
        self.connection = Some(connection);
    }

    /// Takes the open connection out of the client, to be used and given back.
    pub fn take_connection(&mut self) -> (r: Option<C>)
        ensures
            r == old(self).link(),
            final(self).link() == None::<C>,
            final(self).user() == old(self).user(),
            final(self).address() == old(self).address(),
    {
        self.connection.take()
    }

    /// Closes the current connection: the next send opens a new one.
    pub fn close_connection(&mut self)
        ensures
            final(self).link() == None::<C>,
            final(self).user() == old(self).user(),
            final(self).address() == old(self).address(),
    {
        self.connection = None;
    }

    /// The line a client sends for `message`: its username, the separator, the
    /// message, and a newline.
    pub fn request_line(&self, message: &str) -> (r: String)
        ensures
            r@ == self.user() + ": "@ + message@ + "\n"@,
    {
        let mut line = self.username.clone();
        line.append(": ");
        line.append(message);
        line.append("\n");
        line
    }
}

} // verus!
