//! The number of unread mails, read from the account's feed.
//!
//! The host fetches the feed with an outside command and hands over what
//! the command printed. The block looks for the count between the
//! `<fullcount>` tags, shows it, and grades it against two thresholds.
//! Whatever cannot be read leaves the label as it was.

use crate::decimal::{decimal, to_decimal};
use crate::feed::{find, first_occurrence, is_utf8, parse_unsigned, parse_usize};
use crate::ident::{is_block_id, new_id};
use crate::widget::State;
use vstd::prelude::*;
use vstd::slice::slice_subrange;
use vstd::string::{StringExecFns, StringSliceAdditionalSpecFns};
use vstd::utf8::valid_utf8;

verus! {

/// The command that fetches the feed.
pub const FETCH_COMMAND: &'static str = "curl";

/// Where the feed is.
pub const FEED_URL: &'static str = "https://mail.google.com/mail/feed/atom";

/// Settings of the block.
#[derive(Debug)]
pub struct GmailCountConfig {
    /// Update interval in seconds.
    pub interval: u64,
    /// The account's credentials, base64-encoded as basic authentication
    /// wants them.
    pub auth_base64: String,
    /// Unread mails from which the state is `Warning`.
    pub threshold_warning: usize,
    /// Unread mails from which the state is `Critical`.
    pub threshold_critical: usize,
}

impl Clone for GmailCountConfig {
    fn clone(&self) -> (copy: Self)
        ensures
            copy == *self,
    {
        GmailCountConfig {
            interval: self.interval,
            auth_base64: self.auth_base64.clone(),
            threshold_warning: self.threshold_warning,
            threshold_critical: self.threshold_critical,
        }
    }
}

impl GmailCountConfig {
    /// The update interval used when none is configured: one minute.
    pub fn default_interval() -> (secs: u64)
        ensures
            secs == 60,
    {
        60
    }

    /// The warning threshold used when none is configured: one mail.
    pub fn default_threshold_warning() -> (mails: usize)
        ensures
            mails == 1,
    {
        1
    }

    /// The critical threshold used when none is configured: ten mails.
    pub fn default_threshold_critical() -> (mails: usize)
        ensures
            mails == 10,
    {
        10
    }
}

/// What the fetch command left behind: whether it exited successfully, and
/// what it printed.
#[derive(Debug)]
pub struct CommandOutput {
    pub success: bool,
    pub stdout: Vec<u8>,
}

/// The tag that opens the count, as bytes.
pub open spec fn open_tag() -> Seq<u8> {
    "<fullcount>".spec_bytes()
}

/// The tag that closes the count, as bytes.
pub open spec fn close_tag() -> Seq<u8> {
    "</fullcount>".spec_bytes()
}

/// Where the count stands in a feed: from just behind the first opening
/// tag up to the first closing tag. `None` when either tag is missing.
pub open spec fn count_span(feed: Seq<u8>) -> Option<(int, int)> {
    match (first_occurrence(feed, open_tag()), first_occurrence(feed, close_tag())) {
        (Some(open), Some(close)) => Some((open + open_tag().len(), close)),
        _ => None,
    }
}

/// Whether the count can be cut out of the feed: where both tags are
/// there, the first closing tag does not start before the first opening
/// tag has ended.
pub open spec fn tags_in_order(feed: Seq<u8>) -> bool {
    count_span(feed) matches Some((from, to)) ==> from <= to
}

/// The number of unread mails that a feed states, if it states one.
pub open spec fn feed_count(feed: Seq<u8>) -> Option<nat> {
    match count_span(feed) {
        Some((from, to)) => parse_unsigned(feed.subrange(from, to)),
        None => None,
    }
}

/// The state for `mails` unread mails.
pub open spec fn mail_state(mails: nat, threshold_warning: nat, threshold_critical: nat) -> State {
    if mails >= threshold_critical {
        State::Critical
    } else if mails >= threshold_warning {
        State::Warning
    } else {
        State::Idle
    }
}

/// The header line that authenticates the fetch.
pub open spec fn authorization(auth_base64: Seq<char>) -> Seq<char> {
    "Authorization: Basic"@ + " "@ + auth_base64
}

/// Computes [`tags_in_order`].
pub fn check_tags_in_order(feed: &[u8]) -> (ok: bool)
    ensures
        ok == tags_in_order(feed@),
{
    let open = "<fullcount>".as_bytes();
    let close = "</fullcount>".as_bytes();
    match (find(feed, open), find(feed, close)) {
        (Some(start), Some(end)) => end >= open.len() && start <= end - open.len(),
        _ => true,
    }
}

/// Reads the number of unread mails out of a feed.
pub fn count_in_feed(feed: &[u8]) -> (count: Option<usize>)
    requires
        tags_in_order(feed@),
    ensures
        match count {
            Some(n) => feed_count(feed@) == Some(n as nat),
            None => feed_count(feed@) is None,
        },
{
    let open = "<fullcount>".as_bytes();
    let close = "</fullcount>".as_bytes();
    match (find(feed, open), find(feed, close)) {
        (Some(start), Some(end)) => parse_usize(slice_subrange(feed, start + open.len(), end)),
        _ => None,
    }
}

/// Computes [`mail_state`].
pub fn rate_mails(mails: usize, threshold_warning: usize, threshold_critical: usize) -> (state:
    State)
    ensures
        state == mail_state(mails as nat, threshold_warning as nat, threshold_critical as nat),
{
    if mails >= threshold_critical {
        State::Critical
    } else if mails >= threshold_warning {
        State::Warning
    } else {
        State::Idle
    }
}

/// The feed that a fetch brought back, if it brought one: the command has
/// to have run and exited successfully, and what it printed has to be
/// well-formed UTF-8.
pub open spec fn fetched_feed(output: Option<CommandOutput>) -> Option<Seq<u8>> {
    match output {
        Some(o) => if o.success && valid_utf8(o.stdout@) {
            Some(o.stdout@)
        } else {
            None
        },
        None => None,
    }
}

/// The block as the contracts see it.
pub struct GmailCountModel {
    pub id: Seq<char>,
    pub update_interval: nat,
    pub auth_base64: Seq<char>,
    pub threshold_warning: nat,
    pub threshold_critical: nat,
    pub text: Seq<char>,
    pub state: State,
}

impl GmailCountModel {
    /// The block after it has learnt that there are `mails` unread mails.
    pub open spec fn show(self, mails: nat) -> GmailCountModel {
        GmailCountModel {
            text: decimal(mails),
            state: mail_state(mails, self.threshold_warning, self.threshold_critical),
            ..self
        }
    }

    /// The block after a fetch: a feed that states a count replaces label
    /// and state, anything else changes nothing.
    pub open spec fn refresh(self, output: Option<CommandOutput>) -> GmailCountModel {
        match fetched_feed(output) {
            Some(feed) => match feed_count(feed) {
                Some(mails) => self.show(mails),
                None => self,
            },
            None => self,
        }
    }
}

/// Whether the block can take this fetch: a feed that came back has its
/// tags in order. Everything that did not bring a feed is taken.
pub open spec fn can_take(output: Option<CommandOutput>) -> bool {
    fetched_feed(output) matches Some(feed) ==> tags_in_order(feed)
}

/// The unread-mail block.
pub struct GmailCount {
    id: String,
    update_interval: u64,
    auth_base64: String,
    threshold_warning: usize,
    threshold_critical: usize,
    text: String,
    state: State,
}

impl View for GmailCount {
    type V = GmailCountModel;

    closed spec fn view(&self) -> GmailCountModel {
        GmailCountModel {
            id: self.id@,
            update_interval: self.update_interval as nat,
            auth_base64: self.auth_base64@,
            threshold_warning: self.threshold_warning as nat,
            threshold_critical: self.threshold_critical as nat,
            text: self.text@,
            state: self.state,
        }
    }
}

impl GmailCount {
    /// The block as it stands before its first fetch, under the identifier
    /// `id`: an empty label in state `Idle`.
    pub open spec fn initial(id: Seq<char>, block_config: GmailCountConfig) -> GmailCountModel {
        GmailCountModel {
            id,
            update_interval: block_config.interval as nat,
            auth_base64: block_config.auth_base64@,
            threshold_warning: block_config.threshold_warning as nat,
            threshold_critical: block_config.threshold_critical as nat,
            text: Seq::empty(),
            state: State::Idle,
        }
    }

    /// A block with the given identifier.
    pub fn with_id(id: String, block_config: GmailCountConfig) -> (block: GmailCount)
        ensures
            block@ == GmailCount::initial(id@, block_config),
    {
        GmailCount {
            id,
            update_interval: block_config.interval,
            auth_base64: block_config.auth_base64,
            threshold_warning: block_config.threshold_warning,
            threshold_critical: block_config.threshold_critical,
            text: String::new(),
            state: State::Idle,
        }
    }

    /// A block with a fresh random identifier.
    pub fn new(block_config: GmailCountConfig) -> (block: GmailCount)
        ensures
            is_block_id(block@.id),
            block@ == GmailCount::initial(block@.id, block_config),
    {
        GmailCount::with_id(new_id(), block_config)
    }

    /// The arguments for [`FETCH_COMMAND`]: the authorization header and
    /// the address of the feed.
    pub fn fetch_args(&self) -> (args: Vec<String>)
        ensures
            args@.len() == 3,
            args@[0]@ == "-H"@,
            args@[1]@ == authorization(self@.auth_base64),
            args@[2]@ == FEED_URL@,
    {
        let mut header = String::from_str("Authorization: Basic");
        header.append(" ");
        header.append(self.auth_base64.as_str());
        let mut args: Vec<String> = Vec::new();
        args.push(String::from_str("-H"));
        args.push(header);
        args.push(String::from_str(FEED_URL));
        args
    }

    /// Computes [`can_take`]. The host asks before it hands a fetch to
    /// [`GmailCount::update`].
    pub fn accepts(output: &Option<CommandOutput>) -> (ok: bool)
        ensures
            ok == can_take(*output),
    {
        match output {
            Some(o) => !o.success || !is_utf8(o.stdout.as_slice()) || check_tags_in_order(
                o.stdout.as_slice(),
            ),
            None => true,
        }
    }

    /// Takes the outcome of a fetch (`None` where the command could not be
    /// run), brings label and state up to date, and returns the seconds
    /// after which the host should fetch again.
    pub fn update(&mut self, output: Option<CommandOutput>) -> (every: u64)
        requires
            can_take(output),
        ensures
            final(self)@ == old(self)@.refresh(output),
            every == old(self)@.update_interval,
    {
        if let Some(o) = output {
            if o.success && is_utf8(o.stdout.as_slice()) {
                if let Some(mails) = count_in_feed(o.stdout.as_slice()) {
                    self.state = rate_mails(mails, self.threshold_warning, self.threshold_critical);
                    self.text = to_decimal(mails as u64);
                }
            }
        }
        self.update_interval
    }

    /// A click on the block does nothing.
    pub fn click(&mut self)
        ensures
            final(self)@ == old(self)@,
    {
    }

    /// The identifier of the block.
    pub fn id(&self) -> (id: &str)
        ensures
            id@ == self@.id,
    {
        self.id.as_str()
    }

    /// The label as of the last fetch that stated a count.
    pub fn text(&self) -> (text: &str)
        ensures
            text@ == self@.text,
    {
        self.text.as_str()
    }

    /// The state as of the last fetch that stated a count.
    pub fn state(&self) -> (state: State)
        ensures
            state == self@.state,
    {
        self.state
    }
}

} // verus!
