//! Watch targets that fire an event over HTTP.
//!
//! A match is notified by a `PUT` to the event endpoint of a server. The
//! library builds the request and judges the reply; sending is the driver's.

use vstd::prelude::*;
use crate::config::Config;
use crate::monitor::FileHandler;
use crate::monitor::MonitorState;
use crate::monitor::WatchAction;
use crate::monitor::WatchEvent;
use crate::monitor::byte_len;
use crate::monitor::chunk_of;
use crate::monitor::is_tested;
use crate::monitor::reaction_verdict;
use crate::monitor::step;
use crate::pattern::Matcher;
use crate::target::NotificationOutcome;
use crate::target::Target;
use crate::target::WatchTarget;
use crate::text::decimal;
use crate::text::to_decimal;

verus! {

/// The only status with which the server accepts an event.
pub const HTTP_OK: u32 = 200;

/// A watch target together with the server that its event is fired at.
#[derive(Debug, PartialEq, Eq)]
pub struct DescribeEvent {
    pub file: String,
    pub string: String,
    pub server: String,
    pub port: String,
    pub options: String,
    pub name: String,
}

/// A `PUT` request: where it goes and what it carries.
#[derive(Debug, PartialEq, Eq)]
pub struct HttpRequest {
    pub url: String,
    pub body: String,
}

/// The address that fires the event `name` at `server`:`port`, with the
/// query-string fragment `options` behind it.
pub open spec fn fire_url(
    server: Seq<char>,
    port: Seq<char>,
    name: Seq<char>,
    options: Seq<char>,
) -> Seq<char> {
    "http://"@ + server + ":"@ + port + "/v1/event/fire/"@ + name + options
}

/// What is logged of a reply with `status` to the event `name`.
pub open spec fn reply_detail(name: Seq<char>, status: u32) -> Seq<char> {
    if status == HTTP_OK {
        "Event fired for: "@ + name
    } else {
        "Unable to handle HTTP response code "@ + decimal(status as nat)
    }
}

/// What is logged of a request that got no reply, for the reason `error`.
pub open spec fn failure_detail(error: Seq<char>) -> Seq<char> {
    "error putting k/v. "@ + error
}

impl DescribeEvent {
    pub fn new(
        server: String,
        port: String,
        file: String,
        options: String,
        name: String,
        string: String,
    ) -> (out: DescribeEvent)
        ensures
            out == (DescribeEvent { file, string, server, port, options, name }),
    {
        DescribeEvent { server, port, file, options, name, string }
    }

    /// Path of the watched file.
    pub fn file_name(&self) -> (out: String)
        ensures
            out == self.file,
    {
        self.file.clone()
    }

    /// The string looked for in what is appended to the file.
    pub fn search_string(&self) -> (out: String)
        ensures
            out == self.string,
    {
        self.string.clone()
    }

    /// This target without its server.
    pub open spec fn spec_target(&self) -> Target {
        Target {
            path: self.file@,
            pattern: self.string@,
            event_name: self.name@,
            options: self.options@,
        }
    }

    /// This target without its server.
    pub fn target(&self) -> (out: WatchTarget)
        ensures
            out@ == self.spec_target(),
    {
        WatchTarget {
            path: self.file.clone(),
            pattern: self.string.clone(),
            event_name: self.name.clone(),
            options: self.options.clone(),
        }
    }

    /// A monitor for this target's file, which has `size` bytes now. It
    /// applies the substring test.
    pub fn open(&self, size: u64) -> (out: FileHandler)
        ensures
            out@ == FileHandler::new_spec(size, Matcher::Substring),
            out@.wf(),
    {
        FileHandler::new(size, Matcher::Substring)
    }

    /// One step of this target's monitoring loop: what the driver is to do
    /// after `event`; to fire the event where newly read text holds the
    /// search string.
    pub fn monitor(&self, handler: &mut FileHandler, event: WatchEvent) -> (action: WatchAction)
        ensures
            (final(handler)@, action@) == step(
                old(handler)@,
                self.spec_target(),
                event,
                reaction_verdict(action@, old(handler)@.matcher, self.string@, chunk_of(event)),
            ),
            old(handler)@.state == MonitorState::Draining && event is Read && is_tested(
                old(handler)@.pos,
                byte_len(chunk_of(event)),
            ) ==> old(handler)@.matcher.may_answer(
                self.string@,
                chunk_of(event),
                reaction_verdict(action@, old(handler)@.matcher, self.string@, chunk_of(event)),
            ),
            final(handler)@.wf(),
    {
        let target = self.target();
        handler.monitor(&target, event)
    }

    /// The request that fires this target's event.
    pub fn fire(&self) -> (request: HttpRequest)
        ensures
            request.url@ == fire_url(self.server@, self.port@, self.name@, self.options@),
            request.body@ == "feretto"@,
    {
        let mut url = String::from_str("http://");
        url.append(self.server.as_str());
        url.append(":");
        url.append(self.port.as_str());
        url.append("/v1/event/fire/");
        url.append(self.name.as_str());
        url.append(self.options.as_str());
        // The server reads no body, but the request has to carry one.
        HttpRequest { url, body: String::from_str("feretto") }
    }

    /// How the dispatch ended, given the status of the reply, or the reason
    /// why there was none. Only status 200 is a success.
    pub fn delivery(&self, reply: Result<u32, String>) -> (outcome: NotificationOutcome)
        ensures
            outcome.success == (reply == Ok::<u32, String>(HTTP_OK)),
            match reply {
                Ok(status) => outcome.detail@ == reply_detail(self.name@, status),
                Err(error) => outcome.detail@ == failure_detail(error@),
            },
    {
        match reply {
            Ok(status) => {
                if status == HTTP_OK {
                    let mut detail = String::from_str("Event fired for: ");
                    detail.append(self.name.as_str());
                    NotificationOutcome { success: true, detail }
                } else {
                    let mut detail = String::from_str("Unable to handle HTTP response code ");
                    detail.append(to_decimal(status).as_str());
                    NotificationOutcome { success: false, detail }
                }
            },
            Err(error) => {
                let mut detail = String::from_str("error putting k/v. ");
                detail.append(error.as_str());
                NotificationOutcome { success: false, detail }
            },
        }
    }
}

/// The event that the first record of a targets file describes, fired at
/// `server`:`port`. Its name defaults to the file's path, its options to
/// nothing.
pub fn new(server: &str, port: &str, config_file: Vec<Config>) -> (out: DescribeEvent)
    requires
        config_file@.len() > 0,
    ensures
        out.server@ == server@,
        out.port@ == port@,
        out.file == config_file@[0].file,
        out.string == config_file@[0].string,
        out.options@ == config_file@[0].spec_query(),
        out.name@ == config_file@[0].spec_event_name(),
{
    let first = &config_file[0];
    DescribeEvent::new(
        String::from_str(server),
        String::from_str(port),
        first.file.clone(),
        first.query(),
        first.event_name(),
        first.string.clone(),
    )
}

} // verus!
