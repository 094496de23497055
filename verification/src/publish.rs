//! Watch targets that publish a message to a topic.
//!
//! A match is notified by a message that names the machine, the pattern and
//! the event. The library gathers the machine's identity from what the
//! driver read, builds the request and judges the reply; obtaining
//! credentials and publishing is the driver's.

use vstd::prelude::*;
use crate::monitor::FileHandler;
use crate::monitor::MonitorState;
use crate::monitor::WatchAction;
use crate::monitor::WatchEvent;
use crate::monitor::byte_len;
use crate::monitor::chunk_of;
use crate::monitor::is_tested;
use crate::monitor::reaction_verdict;
use crate::monitor::step;
use crate::pattern::Matcher;
use crate::target::NotificationOutcome;
use crate::target::Target;
use crate::target::WatchTarget;
use crate::text::trim;
use crate::text::trimmed;

verus! {

/// A watch target that notifies by publishing: the file to tail, the
/// pattern, and the name of the event.
#[derive(Debug, PartialEq, Eq)]
pub struct LogFile {
    pub file: String,
    pub string: String,
    pub name: String,
}

/// Where to publish: the topic, the role to assume for it, and the region.
#[derive(Debug, PartialEq, Eq)]
pub struct ConfigFile {
    pub target_arn: String,
    pub role_arn: String,
    pub region: String,
}

/// The identity of this machine as it is put into a message.
#[derive(Debug, PartialEq, Eq)]
pub struct SystemInfo {
    pub hostname: String,
    pub ipaddr: String,
}

/// One address of a network interface, as the system lists it.
#[derive(Debug, PartialEq, Eq)]
pub struct Interface {
    pub loopback: bool,
    /// The address in text form.
    pub address: String,
}

/// A message to publish, and what is needed to publish it.
#[derive(Debug, PartialEq, Eq)]
pub struct PublishRequest {
    pub message: String,
    pub subject: String,
    pub target_arn: String,
    /// The role to assume for the publish.
    pub role_arn: String,
    /// Name of the session in which the role is assumed.
    pub session_name: String,
    pub region: String,
}

/// The host name, given what the host-name file holds, if it could be read:
/// its contents without surrounding white space, or else `localhost`.
pub open spec fn hostname_of(contents: Option<&str>) -> Seq<char> {
    match contents {
        Some(text) => trimmed(text@),
        None => "localhost"@,
    }
}

/// The address of the first interface, in the order listed, that is not a
/// loopback interface; empty where there is none.
pub open spec fn primary_address(interfaces: Seq<Interface>) -> Seq<char>
    decreases interfaces.len(),
{
    if interfaces.len() == 0 {
        Seq::<char>::empty()
    } else if !interfaces[0].loopback {
        interfaces[0].address@
    } else {
        primary_address(interfaces.drop_first())
    }
}

/// The message that tells of a match of `pattern`, notified as the event
/// `name`, on the machine `hostname` with address `ipaddr`.
pub open spec fn publish_message(
    hostname: Seq<char>,
    ipaddr: Seq<char>,
    pattern: Seq<char>,
    name: Seq<char>,
) -> Seq<char> {
    hostname + ":"@ + ipaddr + "::Triggered "@ + pattern + " on "@ + name
}

/// What is logged of a publish that was accepted under `message_id`.
pub open spec fn accepted_detail(message_id: Option<String>) -> Seq<char> {
    match message_id {
        Some(id) => "Successfully sent notification "@ + id@,
        None => "Successfully sent notification"@,
    }
}

/// What is logged of a publish that failed for the reason `error`.
pub open spec fn refused_detail(error: Seq<char>) -> Seq<char> {
    "Failed to send notification "@ + error
}

/// Where the loopback interfaces at the head of a list are dropped, the
/// primary address stays.
proof fn lemma_skip_loopbacks(interfaces: Seq<Interface>, n: int)
    requires
        0 <= n <= interfaces.len(),
        forall|j: int| 0 <= j < n ==> interfaces[j].loopback,
    ensures
        primary_address(interfaces) == primary_address(
            interfaces.subrange(n, interfaces.len() as int),
        ),
    decreases n,
{
    if n == 0 {
        assert(interfaces.subrange(0, interfaces.len() as int) =~= interfaces);
    } else {
        let rest = interfaces.drop_first();
        lemma_skip_loopbacks(rest, n - 1);
        assert(rest.subrange(n - 1, rest.len() as int) =~= interfaces.subrange(
            n,
            interfaces.len() as int,
        ));
    }
}

impl SystemInfo {
    /// The address that stands for this machine among `interfaces`.
    pub fn primary(interfaces: &Vec<Interface>) -> (out: String)
        ensures
            out@ == primary_address(interfaces@),
    {
        let mut i: usize = 0;
        while i < interfaces.len()
            invariant
                i <= interfaces.len(),
                forall|j: int| 0 <= j < i ==> interfaces@[j].loopback,
            decreases interfaces.len() - i,
        {
            if !interfaces[i].loopback {
                proof {
                    lemma_skip_loopbacks(interfaces@, i as int);
                }
                return interfaces[i].address.clone();
            }
            i += 1;
        }
        proof {
            lemma_skip_loopbacks(interfaces@, i as int);
        }
        String::new()
    }

    /// The identity of this machine: its host name from the contents of the
    /// host-name file, where that could be read, and its address from the
    /// interfaces that the system lists, none where that failed.
    pub fn gather(hostname_file: Option<&str>, interfaces: &Vec<Interface>) -> (out: SystemInfo)
        ensures
            out.hostname@ == hostname_of(hostname_file),
            out.ipaddr@ == primary_address(interfaces@),
    {
        let hostname = match hostname_file {
            Some(text) => String::from_str(trim(text)),
            None => String::from_str("localhost"),
        };
        SystemInfo { hostname, ipaddr: Self::primary(interfaces) }
    }
}

impl LogFile {
    /// This target in the form that a monitor takes. It carries no options.
    pub open spec fn spec_target(&self) -> Target {
        Target {
            path: self.file@,
            pattern: self.string@,
            event_name: self.name@,
            options: Seq::<char>::empty(),
        }
    }

    /// This target in the form that a monitor takes.
    pub fn target(&self) -> (out: WatchTarget)
        ensures
            out@ == self.spec_target(),
    {
        WatchTarget {
            path: self.file.clone(),
            pattern: self.string.clone(),
            event_name: self.name.clone(),
            options: String::new(),
        }
    }

    /// A monitor for this target's file, which has `size` bytes now. It
    /// applies the regular-expression test.
    pub fn open(&self, size: u64) -> (out: FileHandler)
        ensures
            out@ == FileHandler::new_spec(size, Matcher::Regex),
            out@.wf(),
    {
        FileHandler::new(size, Matcher::Regex)
    }

    /// One step of this target's monitoring loop: what the driver is to do
    /// after `event`; to publish where newly read text matches the pattern.
    pub fn monitor(&self, handler: &mut FileHandler, event: WatchEvent) -> (action: WatchAction)
        ensures
            (final(handler)@, action@) == step(
                old(handler)@,
                self.spec_target(),
                event,
                reaction_verdict(action@, old(handler)@.matcher, self.string@, chunk_of(event)),
            ),
            old(handler)@.state == MonitorState::Draining && event is Read && is_tested(
                old(handler)@.pos,
                byte_len(chunk_of(event)),
            ) ==> old(handler)@.matcher.may_answer(
                self.string@,
                chunk_of(event),
                reaction_verdict(action@, old(handler)@.matcher, self.string@, chunk_of(event)),
            ),
            final(handler)@.wf(),
    {
        let target = self.target();
        handler.monitor(&target, event)
    }

    /// The request that notifies a match on this target, from the machine
    /// whose host-name file and interfaces the driver read.
    pub fn fire(
        &self,
        config: &ConfigFile,
        hostname_file: Option<&str>,
        interfaces: &Vec<Interface>,
    ) -> (request: PublishRequest)
        ensures
            request.message@ == publish_message(
                hostname_of(hostname_file),
                primary_address(interfaces@),
                self.string@,
                self.name@,
            ),
            request.subject@ == "feretto: notification"@,
            request.target_arn == config.target_arn,
            request.role_arn == config.role_arn,
            request.session_name@ == "feretto"@,
            request.region == config.region,
    {
        let system = SystemInfo::gather(hostname_file, interfaces);
        let mut message = system.hostname;
        message.append(":");
        message.append(system.ipaddr.as_str());
        message.append("::Triggered ");
        message.append(self.string.as_str());
        message.append(" on ");
        message.append(self.name.as_str());
        PublishRequest {
            message,
            subject: String::from_str("feretto: notification"),
            target_arn: config.target_arn.clone(),
            role_arn: config.role_arn.clone(),
            session_name: String::from_str("feretto"),
            region: config.region.clone(),
        }
    }

    /// How the dispatch ended, given the identifier under which the message
    /// was accepted, or the reason why it was not.
    pub fn delivery(reply: Result<Option<String>, String>) -> (outcome: NotificationOutcome)
        ensures
            outcome.success == reply.is_ok(),
            match reply {
                Ok(message_id) => outcome.detail@ == accepted_detail(message_id),
                Err(error) => outcome.detail@ == refused_detail(error@),
            },
    {
        match reply {
            Ok(Some(id)) => {
                let mut detail = String::from_str("Successfully sent notification ");
                detail.append(id.as_str());
                NotificationOutcome { success: true, detail }
            },
            Ok(None) => NotificationOutcome {
                success: true,
                detail: String::from_str("Successfully sent notification"),
            },
            Err(error) => {
                let mut detail = String::from_str("Failed to send notification ");
                detail.append(error.as_str());
                NotificationOutcome { success: false, detail }
            },
        }
    }
}

} // verus!
