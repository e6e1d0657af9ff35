//! The typed shapes of inbound chat triggers, and their conversion into
//! engine events. Decoding the wire formats happens outside the library;
//! these types carry the decoded fields as plain values.

use vstd::prelude::*;

use crate::events::SprintEvents;
use crate::reconcile::string_views;
use crate::strutil::str_eq;

verus! {

/// A normalized inbound trigger: which channel, which command, what payload
/// text.
#[derive(Debug)]
pub struct Trigger {
    pub channel_id: String,
    pub command: String,
    pub text: String,
}

/// The fields of a chat slash command.
#[derive(Debug)]
pub struct SlackSlashCommandBody {
    pub token: String,
    pub channel_id: String,
    pub user_id: String,
    pub command: String,
    pub text: String,
    pub api_app_id: String,
    pub response_url: String,
    pub trigger_id: String,
}

/// One button press inside a chat message.
#[derive(Debug)]
pub struct SlackBlockAction {
    pub action_id: String,
    pub block_id: String,
    pub value: String,
    pub action_type: String,
}

/// The channel a button press arrived from.
#[derive(Debug)]
pub struct SlackBlockActionChannel {
    pub id: String,
    pub name: String,
}

/// The decoded payload of a button press.
#[derive(Debug)]
pub struct SlackBlockActionPayload {
    pub trigger_type: String,
    pub api_app_id: String,
    pub token: String,
    pub trigger_id: String,
    pub actions: Vec<SlackBlockAction>,
    pub channel: SlackBlockActionChannel,
}

/// The envelope a button-press payload arrives in.
#[derive(Debug)]
pub struct SlackBlockActionBody {
    pub payload: SlackBlockActionPayload,
}

/// The whitespace that separates arguments in a command's text.
pub open spec fn is_space_char(c: char) -> bool {
    c == ' ' || c == '\t' || c == '\n' || c == '\r'
}

/// The tokens completed after reading the first `i` characters of `s`, and
/// the token still being read.
pub open spec fn split_ws_upto(s: Seq<char>, i: int) -> (Seq<Seq<char>>, Seq<char>)
    decreases i,
{
    if i <= 0 {
        (Seq::empty(), Seq::empty())
    } else {
        let (tokens, current) = split_ws_upto(s, i - 1);
        let c = s[i - 1];
        if is_space_char(c) {
            if current.len() > 0 {
                (tokens.push(current), Seq::<char>::empty())
            } else {
                (tokens, current)
            }
        } else {
            (tokens, current.push(c))
        }
    }
}

/// `s` split on runs of whitespace, empty tokens dropped.
pub open spec fn split_ws(s: Seq<char>) -> Seq<Seq<char>> {
    let (tokens, current) = split_ws_upto(s, s.len() as int);
    if current.len() > 0 {
        tokens.push(current)
    } else {
        tokens
    }
}

/// Whether `c` separates arguments.
fn is_space(c: char) -> (r: bool)
    ensures
        r == is_space_char(c),
{
    c == ' ' || c == '\t' || c == '\n' || c == '\r'
}

/// Splits a command's text into its arguments.
pub fn split_text(s: &str) -> (r: Vec<String>)
    ensures
        string_views(r@) == split_ws(s@),
{
    let n = s.unicode_len();
    let mut tokens: Vec<String> = Vec::new();
    let mut current = String::new();
    let mut i: usize = 0;
    while i < n
        invariant
            i <= n,
            n == s@.len(),
            (string_views(tokens@), current@) == split_ws_upto(s@, i as int),
        decreases n - i,
    {
        let c = s.get_char(i);
        if is_space(c) {
            if current.unicode_len() > 0 {
                tokens.push(current);
                current = String::new();
            }
        } else {
            crate::strutil::push_char(&mut current, c);
        }
        proof {
            assert((string_views(tokens@), current@) =~= split_ws_upto(s@, i + 1));
        }
        i += 1;
    }
    if current.unicode_len() > 0 {
        tokens.push(current);
    }
    proof {
        assert(string_views(tokens@) =~= split_ws(s@));
    }
    tokens
}

impl SlackSlashCommandBody {
    /// The normalized trigger of a slash command.
    pub fn to_trigger(&self) -> (r: Trigger)
        ensures
            r.channel_id@ == self.channel_id@,
            r.command@ == self.command@,
            r.text@ == self.text@,
    {
        Trigger {
            channel_id: self.channel_id.clone(),
            command: self.command.clone(),
            text: self.text.clone(),
        }
    }

    /// The engine event of a slash command: the known sprint commands carry
    /// their whitespace-split arguments and the response address; any other
    /// command text is not an event.
    pub fn into_sprint_events(self) -> (r: Option<SprintEvents>)
        ensures
            r is Some <==> (self.command@ == "/sprint-kickoff"@ || self.command@
                == "/sprint-check-in"@ || self.command@ == "/sprint-end"@ || self.command@
                == "/sprint-cancel"@),
            r matches Some(ev) ==> (ev matches SprintEvents::MessageTrigger {
                command,
                args,
                channel_id,
                response_url,
            } && command@ == self.command@ && string_views(args@) == split_ws(self.text@)
                && channel_id@ == self.channel_id@ && (response_url matches Some(u) && u@
                == self.response_url@)),
    {
        let known = str_eq(self.command.as_str(), "/sprint-kickoff") || str_eq(
            self.command.as_str(),
            "/sprint-check-in",
        ) || str_eq(self.command.as_str(), "/sprint-end") || str_eq(
            self.command.as_str(),
            "/sprint-cancel",
        );
        if !known {
            return None;
        }
        let args = split_text(self.text.as_str());
        Some(
            SprintEvents::MessageTrigger {
                command: self.command,
                args,
                channel_id: self.channel_id,
                response_url: Some(self.response_url),
            },
        )
    }
}

impl SlackBlockActionPayload {
    /// The normalized trigger of a button press: the first action names the
    /// command and carries the payload text.
    pub fn to_trigger(&self) -> (r: Trigger)
        requires
            self.actions@.len() >= 1,
        ensures
            r.channel_id@ == self.channel.id@,
            r.command@ == self.actions@[0].action_id@,
            r.text@ == self.actions@[0].value@,
    {
        Trigger {
            channel_id: self.channel.id.clone(),
            command: self.actions[0].action_id.clone(),
            text: self.actions[0].value.clone(),
        }
    }

    /// The engine event of a button press: only the kickoff confirmation is
    /// an event, carrying its whitespace-split arguments and no response
    /// address.
    pub fn into_sprint_events(self) -> (r: Option<SprintEvents>)
        requires
            self.actions@.len() >= 1,
        ensures
            r is Some <==> self.actions@[0].action_id@ == "/sprint-kickoff-confirm"@,
            r matches Some(ev) ==> (ev matches SprintEvents::MessageTrigger {
                command,
                args,
                channel_id,
                response_url,
            } && command@ == self.actions@[0].action_id@ && string_views(args@) == split_ws(
                self.actions@[0].value@,
            ) && channel_id@ == self.channel.id@ && response_url is None),
    {
        if !str_eq(self.actions[0].action_id.as_str(), "/sprint-kickoff-confirm") {
            return None;
        }
        let args = split_text(self.actions[0].value.as_str());
        let command = self.actions[0].action_id.clone();
        let value_channel = self.channel.id.clone();
        Some(
            SprintEvents::MessageTrigger {
                command,
                args,
                channel_id: value_channel,
                response_url: None,
            },
        )
    }
}

} // verus!
