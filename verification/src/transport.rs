//! The two ways in which a match is notified, and the choice between them.

use vstd::prelude::*;
use crate::pattern::Matcher;
use crate::publish::ConfigFile;

verus! {

/// The connection parameters as the top-level configuration gives them:
/// `server` and `port` for firing events over HTTP, or `target_arn`,
/// `role_arn` and `region` for publishing to a topic.
#[derive(Debug, PartialEq, Eq)]
pub struct Settings {
    pub server: Option<String>,
    pub port: Option<String>,
    pub target_arn: Option<String>,
    pub role_arn: Option<String>,
    pub region: Option<String>,
}

/// A way of notifying, with its connection parameters.
#[derive(Debug, PartialEq, Eq)]
pub enum Transport {
    /// Fire an event at `server`:`port`.
    Http { server: String, port: String },
    /// Publish a message to a topic.
    PubSub(ConfigFile),
}

impl Settings {
    /// Whether the parameters for firing events are all there.
    pub open spec fn names_server(&self) -> bool {
        self.server is Some && self.port is Some
    }

    /// Whether the parameters for publishing are all there.
    pub open spec fn names_topic(&self) -> bool {
        self.target_arn is Some && self.role_arn is Some && self.region is Some
    }

    /// The transport that these settings select: the one whose parameters
    /// are all there, provided that those of the other are not.
    pub open spec fn selected(&self) -> Option<Transport> {
        if self.names_server() && !self.names_topic() {
            Some(Transport::Http { server: self.server->0, port: self.port->0 })
        } else if self.names_topic() && !self.names_server() {
            Some(
                Transport::PubSub(
                    ConfigFile {
                        target_arn: self.target_arn->0,
                        role_arn: self.role_arn->0,
                        region: self.region->0,
                    },
                ),
            )
        } else {
            None
        }
    }

    /// Selects the transport by the parameters that are present. Settings
    /// that name neither a server nor a topic in full, or both, select none.
    pub fn transport(self) -> (out: Option<Transport>)
        ensures
            out == self.selected(),
    {
        match (self.server, self.port, self.target_arn, self.role_arn, self.region) {
            (Some(server), Some(port), Some(_), Some(_), Some(_)) => None,
            (Some(server), Some(port), _, _, _) => Some(Transport::Http { server, port }),
            (_, _, Some(target_arn), Some(role_arn), Some(region)) => Some(
                Transport::PubSub(ConfigFile { target_arn, role_arn, region }),
            ),
            _ => None,
        }
    }
}

impl Transport {
    /// The pattern test that goes with this transport: the substring test
    /// where events are fired, the regular-expression test where messages
    /// are published.
    pub fn matcher(&self) -> (out: Matcher)
        ensures
            out == (if self is Http {
                Matcher::Substring
            } else {
                Matcher::Regex
            }),
    {
        match self {
            Transport::Http { .. } => Matcher::Substring,
            Transport::PubSub(_) => Matcher::Regex,
        }
    }
}

} // verus!
