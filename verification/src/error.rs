//! The errors of the library, by kind.

use vstd::prelude::*;
use vstd::string::StringExecFns;

verus! {

/// An error of one of the components.
#[derive(Debug, Clone, PartialEq, Eq)]
pub enum Error {
    /// Input or output failed.
    Io(String),
    /// The netlink transport failed, or its answer was malformed.
    Netlink(String),
    /// The kernel refused an IPVS command.
    IPVS(String),
    /// A VRRP packet or configuration is invalid.
    VRRP(String),
    /// A health check could not be run.
    Healthcheck(String),
    /// The configuration is invalid or could not be read.
    Config(String),
    /// A message could not be encoded or decoded.
    Serialization(String),
    /// Anything else.
    Other(String),
}

/// The kind and the text of an [`Error`].
pub enum ErrorView {
    Io(Seq<char>),
    Netlink(Seq<char>),
    IPVS(Seq<char>),
    VRRP(Seq<char>),
    Healthcheck(Seq<char>),
    Config(Seq<char>),
    Serialization(Seq<char>),
    Other(Seq<char>),
}

impl View for Error {
    type V = ErrorView;

    open spec fn view(&self) -> ErrorView {
        match self {
            Error::Io(m) => ErrorView::Io(m@),
            Error::Netlink(m) => ErrorView::Netlink(m@),
            Error::IPVS(m) => ErrorView::IPVS(m@),
            Error::VRRP(m) => ErrorView::VRRP(m@),
            Error::Healthcheck(m) => ErrorView::Healthcheck(m@),
            Error::Config(m) => ErrorView::Config(m@),
            Error::Serialization(m) => ErrorView::Serialization(m@),
            Error::Other(m) => ErrorView::Other(m@),
        }
    }
}

impl ErrorView {
    /// The error in one line: its kind, then its text.
    pub open spec fn text(self) -> Seq<char> {
        match self {
            ErrorView::Io(m) => "IO error: "@ + m,
            ErrorView::Netlink(m) => "Netlink error: "@ + m,
            ErrorView::IPVS(m) => "IPVS error: "@ + m,
            ErrorView::VRRP(m) => "VRRP error: "@ + m,
            ErrorView::Healthcheck(m) => "Healthcheck error: "@ + m,
            ErrorView::Config(m) => "Configuration error: "@ + m,
            ErrorView::Serialization(m) => "Serialization error: "@ + m,
            ErrorView::Other(m) => "Unknown error: "@ + m,
        }
    }
}

impl Error {
    /// A netlink error.
    pub fn netlink(msg: &str) -> (e: Self)
        ensures
            e@ == ErrorView::Netlink(msg@),
    {
        Error::Netlink(msg.to_owned())
    }

    /// An IPVS error.
    pub fn ipvs(msg: &str) -> (e: Self)
        ensures
            e@ == ErrorView::IPVS(msg@),
    {
        Error::IPVS(msg.to_owned())
    }

    /// A VRRP error.
    pub fn vrrp(msg: &str) -> (e: Self)
        ensures
            e@ == ErrorView::VRRP(msg@),
    {
        Error::VRRP(msg.to_owned())
    }

    /// A health-check error.
    pub fn healthcheck(msg: &str) -> (e: Self)
        ensures
            e@ == ErrorView::Healthcheck(msg@),
    {
        Error::Healthcheck(msg.to_owned())
    }

    /// A configuration error.
    pub fn config(msg: &str) -> (e: Self)
        ensures
            e@ == ErrorView::Config(msg@),
    {
        Error::Config(msg.to_owned())
    }

    /// An error of no other kind.
    pub fn other(msg: &str) -> (e: Self)
        ensures
            e@ == ErrorView::Other(msg@),
    {
        Error::Other(msg.to_owned())
    }

    /// The error in one line: its kind, then its text.
    pub fn to_string(&self) -> (s: String)
        ensures
            s@ == self@.text(),
    {
        match self {
            Error::Io(m) => {
                let mut s: String = "IO error: ".to_owned();
                s.append(m.as_str());
                s
            },
            Error::Netlink(m) => {
                let mut s: String = "Netlink error: ".to_owned();
                s.append(m.as_str());
                s
            },
            Error::IPVS(m) => {
                let mut s: String = "IPVS error: ".to_owned();
                s.append(m.as_str());
                s
            },
            Error::VRRP(m) => {
                let mut s: String = "VRRP error: ".to_owned();
                s.append(m.as_str());
                s
            },
            Error::Healthcheck(m) => {
                let mut s: String = "Healthcheck error: ".to_owned();
                s.append(m.as_str());
                s
            },
            Error::Config(m) => {
                let mut s: String = "Configuration error: ".to_owned();
                s.append(m.as_str());
                s
            },
            Error::Serialization(m) => {
                let mut s: String = "Serialization error: ".to_owned();
                s.append(m.as_str());
                s
            },
            Error::Other(m) => {
                let mut s: String = "Unknown error: ".to_owned();
                s.append(m.as_str());
                s
            },
        }
    }
}

} // verus!
