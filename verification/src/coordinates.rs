//! Where the remote receiver lives.

use crate::text::{decimal, decimal_text};
use vstd::prelude::*;

verus! {

/// Server, port and site of a remote receiver.
#[derive(Debug, PartialEq, Eq)]
pub struct Coordinates {
    pub server: String,
    pub port: u16,
    pub site: String,
}

/// What a [`Coordinates`] value stands for.
pub struct CoordinatesView {
    pub server: Seq<char>,
    pub port: u16,
    pub site: Seq<char>,
}

impl CoordinatesView {
    /// The short form shown to the operator: `server:port/site`.
    pub open spec fn text(self) -> Seq<char> {
        self.server + seq![':'] + decimal_text(self.port as nat) + seq!['/'] + self.site
    }

    /// The base address of every request: `https://server:port/site`.
    pub open spec fn url(self) -> Seq<char> {
        "https://"@ + self.text()
    }
}

impl View for Coordinates {
    type V = CoordinatesView;

    open spec fn view(&self) -> CoordinatesView {
        CoordinatesView { server: self.server@, port: self.port, site: self.site@ }
    }
}

impl Clone for Coordinates {
    fn clone(&self) -> (copy: Self)
        ensures
            copy == *self,
    {
        Coordinates { server: self.server.clone(), port: self.port, site: self.site.clone() }
    }
}

impl Coordinates {
    /// The short form shown to the operator.
    pub fn to_string(&self) -> (text: String)
        ensures
            text@ == self@.text(),
    {
        proof {
            reveal_strlit(":");
            reveal_strlit("/");
        }
        let mut text = self.server.clone();
        text.append(":");
        text.append(decimal(self.port).as_str());
        text.append("/");
        text.append(self.site.as_str());
        text
    }

    /// The base address of every request to the receiver.
    pub fn to_url(&self) -> (url: String)
        ensures
            url@ == self@.url(),
    {
        let mut url = String::from_str("https://");
        url.append(self.to_string().as_str());
        url
    }
}

} // verus!
