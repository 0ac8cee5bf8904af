//! The events and replies that reach the library, and the requests it asks
//! for, as plain values.

use vstd::prelude::*;
use vstd::string::*;

verus! {

/// Who wrote a message.
#[derive(Clone, Debug, PartialEq, Eq)]
pub struct User {
    pub name: String,
    pub discriminator: u16,
}

/// An author as plain values.
pub struct UserView {
    pub name: Seq<char>,
    pub discriminator: u16,
}

impl View for User {
    type V = UserView;

    open spec fn view(&self) -> UserView {
        UserView { name: self.name@, discriminator: self.discriminator }
    }
}

/// The account as the event stream reports it on connection.
#[derive(Clone, Debug, PartialEq, Eq)]
pub struct CurrentUser {
    pub name: String,
    pub discriminator: u16,
    pub avatar: Option<String>,
    pub id: u64,
}

/// A message that a session received.
#[derive(Clone, Debug, PartialEq, Eq)]
pub struct Message {
    pub id: u64,
    pub channel_id: u64,
    pub guild_id: Option<u64>,
    pub author: User,
    pub content: String,
}

/// A message as plain values.
pub struct MessageView {
    pub id: u64,
    pub channel_id: u64,
    pub guild_id: Option<u64>,
    pub author: UserView,
    pub content: Seq<char>,
}

impl View for Message {
    type V = MessageView;

    open spec fn view(&self) -> MessageView {
        MessageView {
            id: self.id,
            channel_id: self.channel_id,
            guild_id: self.guild_id,
            author: self.author@,
            content: self.content@,
        }
    }
}

/// What a session reports when it is connected: the account and the number
/// of guilds it is in.
#[derive(Clone, Debug, PartialEq, Eq)]
pub struct Ready {
    pub user: CurrentUser,
    pub guilds: usize,
}

/// How a request is made.
#[derive(Clone, Copy, Debug, PartialEq, Eq, Structural)]
pub enum Method {
    Get,
    Post,
}

/// One header of a request.
#[derive(Clone, Debug, PartialEq, Eq)]
pub struct Header {
    pub name: String,
    pub value: String,
}

/// A header as plain text.
pub struct HeaderView {
    pub name: Seq<char>,
    pub value: Seq<char>,
}

impl View for Header {
    type V = HeaderView;

    open spec fn view(&self) -> HeaderView {
        HeaderView { name: self.name@, value: self.value@ }
    }
}

/// A request for the caller to send. The body is empty.
#[derive(Clone, Debug, PartialEq, Eq)]
pub struct Request {
    pub method: Method,
    pub uri: String,
    pub headers: Vec<Header>,
}

/// A request as plain values.
pub struct RequestView {
    pub method: Method,
    pub uri: Seq<char>,
    pub headers: Seq<HeaderView>,
}

impl View for Request {
    type V = RequestView;

    open spec fn view(&self) -> RequestView {
        RequestView {
            method: self.method,
            uri: self.uri@,
            headers: self.headers@.map_values(|header: Header| header@),
        }
    }
}

/// What came back for a request: the status, and the bytes of the body
/// where they could be read.
#[derive(Clone, Debug, PartialEq, Eq)]
pub struct Reply {
    pub status: u16,
    pub body: Option<Vec<u8>>,
}

/// The bytes of an optional body.
pub open spec fn bytes_of(body: Option<Vec<u8>>) -> Option<Seq<u8>> {
    match body {
        Some(bytes) => Some(bytes@),
        None => None,
    }
}

impl Header {
    /// A header with the given name and value.
    pub fn new(name: &str, value: String) -> (header: Header)
        ensures
            header@ == (HeaderView { name: name@, value: value@ }),
    {
        Header { name: String::from_str(name), value }
    }
}

} // verus!
