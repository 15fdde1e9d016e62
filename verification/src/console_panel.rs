//! The console: the last lines that the application logged.
use std::sync::mpsc::{Receiver, Sender};

use vstd::prelude::*;

use crate::text;

verus! {

/// How many lines are kept.
pub const MAX_CONSOLE_LINES: usize = 1000;

/// The receiving end of a channel.
#[verifier::external_type_specification]
#[verifier::external_body]
#[verifier::reject_recursive_types(T)]
pub struct ExReceiver<T>(std::sync::mpsc::Receiver<T>);

/// The sending end of a channel.
#[verifier::external_type_specification]
#[verifier::external_body]
#[verifier::reject_recursive_types(T)]
pub struct ExSender<T>(std::sync::mpsc::Sender<T>);

/// A line of the console.
#[derive(Debug, Clone, PartialEq, Eq)]
pub struct ConsoleLine {
    pub timestamp: String,
    pub text: String,
    pub is_stderr: bool,
}

/// The receiving end of the channel that a sender was made with: what is sent
/// comes out there.
pub uninterp spec fn receiver_of(sender: Sender<ConsoleLine>) -> Receiver<ConsoleLine>;

/// `std::sync::mpsc::channel` makes a channel and gives its two ends: what is sent
/// on the sender comes out of the receiver. What that is, and when, depends on the
/// threads that send; nothing is claimed of it.
#[verifier::external_body]
fn line_channel() -> (r: (Sender<ConsoleLine>, Receiver<ConsoleLine>))
    ensures
        receiver_of(r.0) == r.1,
{
    std::sync::mpsc::channel()
}

/// `std::sync::mpsc::Receiver::try_iter` gives the lines that are waiting. Which
/// they are depends on what other threads sent; nothing is claimed of them.
#[verifier::external_body]
fn waiting_lines(receiver: &Receiver<ConsoleLine>) -> (r: Vec<ConsoleLine>) {
    receiver.try_iter().collect()
}

/// `std::time::SystemTime::now`, as the time since 1970 in whole seconds and
/// milliseconds, zero before that. The milliseconds are those of the second, as
/// `Duration::subsec_millis` promises; more depends on the clock.
#[verifier::external_body]
fn clock_now() -> (r: (u64, u32))
    ensures
        r.1 < 1000,
{
    let now = std::time::SystemTime::now().duration_since(
        std::time::SystemTime::UNIX_EPOCH,
    ).unwrap_or_default();
    (now.as_secs(), now.subsec_millis())
}

/// The console's lines, and where new ones come from.
#[derive(Debug)]
pub struct ConsolePanel {
    pub lines: Vec<ConsoleLine>,
    pub receiver: Receiver<ConsoleLine>,
}

/// The last lines of `s`, as many as are kept.
pub open spec fn kept(s: Seq<ConsoleLine>) -> Seq<ConsoleLine> {
    if s.len() <= MAX_CONSOLE_LINES {
        s
    } else {
        s.skip(s.len() - MAX_CONSOLE_LINES)
    }
}

impl ConsolePanel {
    /// No more lines than are kept.
    pub open spec fn well_formed(self) -> bool {
        self.lines@.len() <= MAX_CONSOLE_LINES
    }

    /// An empty console, and the end to send lines to: they come out at the
    /// console's receiver.
    pub fn new() -> (r: (ConsolePanel, Sender<ConsoleLine>))
        ensures
            r.0.well_formed(),
            r.0.lines@ == Seq::<ConsoleLine>::empty(),
            receiver_of(r.1) == r.0.receiver,
    {
        let (tx, rx) = line_channel();
        (ConsolePanel { lines: Vec::new(), receiver: rx }, tx)
    }

    /// Adds lines; the oldest give way where there are more than are kept.
    pub fn absorb(&mut self, received: Vec<ConsoleLine>)
        requires
            old(self).well_formed(),
        ensures
            final(self).well_formed(),
            final(self).lines@ == kept(old(self).lines@ + received@),
            final(self).receiver == old(self).receiver,
    {
        let ghost before = self.lines@;
        let ghost rx = self.receiver;
        let ghost all = received@;
        for line in it: received
            invariant
                it.seq() == all,
                self.lines@ =~= kept(before + all.take(it.index() as int)),
                it.index() == all.len() ==> self.lines@ =~= kept(before + all),
                self.receiver == rx,
        {
            self.lines.push(line);
            if self.lines.len() > MAX_CONSOLE_LINES {
                self.lines.remove(0);
            }
            assert(all.take(it.index() + 1) =~= all.take(it.index() as int).push(line));
            assert(self.lines@ =~= kept(before + all.take(it.index() + 1)));
            assert(it.index() + 1 == all.len() ==> all.take(it.index() + 1) =~= all);
        }
    }

    /// Adds the lines that are waiting.
    pub fn poll(&mut self)
        requires
            old(self).well_formed(),
        ensures
            final(self).well_formed(),
            exists|received: Seq<ConsoleLine>|
                final(self).lines@ == #[trigger] kept(old(self).lines@ + received),
            final(self).receiver == old(self).receiver,
    {
        let received = waiting_lines(&self.receiver);
        self.absorb(received);
    }

    /// The lines, oldest first.
    pub fn lines(&self) -> (r: &[ConsoleLine])
        ensures
            r@ == self.lines@,
    {
        self.lines.as_slice()
    }

    /// Drops every line.
    pub fn clear(&mut self)
        ensures
            final(self).well_formed(),
            final(self).lines@ == Seq::<ConsoleLine>::empty(),
            final(self).receiver == old(self).receiver,
    {
        self.lines.clear();
    }
}

impl Default for ConsolePanel {
    fn default() -> (r: ConsolePanel)
        ensures
            r.well_formed(),
            r.lines@ == Seq::<ConsoleLine>::empty(),
    {
        let (panel, _sender) = ConsolePanel::new();
        panel
    }
}

/// The time of day, `hh:mm:ss.mmm` in UTC.
pub open spec fn clock_text(secs: u64, millis: u32) -> Seq<char> {
    text::two_digits((secs / 3600 % 24) as nat) + ":"@ + text::two_digits((secs / 60 % 60) as nat)
        + ":"@ + text::two_digits((secs % 60) as nat) + "."@ + text::three_digits(millis as nat)
}

/// The time of day, given the time since 1970.
pub fn format_timestamp(secs: u64, millis: u32) -> (r: String)
    requires
        millis < 1000,
    ensures
        r@ == clock_text(secs, millis),
{
    let mut r = String::new();
    text::push_two_digits(&mut r, (secs / 3600) % 24);
    r.push_str(":");
    text::push_two_digits(&mut r, (secs / 60) % 60);
    r.push_str(":");
    text::push_two_digits(&mut r, secs % 60);
    r.push_str(".");
    text::push_three_digits(&mut r, millis as u64);
    assert(r@ =~= clock_text(secs, millis));
    r
}

/// The time of day now.
pub fn current_timestamp() -> (r: String)
    ensures
        exists|secs: u64, millis: u32| millis < 1000 && r@ == #[trigger] clock_text(secs, millis),
{
    let (secs, millis): (u64, u32) = clock_now();
    format_timestamp(secs, millis)
}

/// The line that a message makes.
pub fn console_line(message: &str, timestamp: String, is_stderr: bool) -> (r: ConsoleLine)
    ensures
        r.text@ == message@,
        r.timestamp == timestamp,
        r.is_stderr == is_stderr,
{
    ConsoleLine { timestamp, text: message.to_owned(), is_stderr }
}

/// The line to send for a message that is logged now.
pub fn log(message: &str) -> (r: ConsoleLine)
    ensures
        r.text@ == message@,
        !r.is_stderr,
        exists|secs: u64, millis: u32|
            millis < 1000 && r.timestamp@ == #[trigger] clock_text(secs, millis),
{
    console_line(message, current_timestamp(), false)
}

/// The line to send for an error that is logged now.
pub fn log_error(message: &str) -> (r: ConsoleLine)
    ensures
        r.text@ == message@,
        r.is_stderr,
        exists|secs: u64, millis: u32|
            millis < 1000 && r.timestamp@ == #[trigger] clock_text(secs, millis),
{
    console_line(message, current_timestamp(), true)
}

/// Lines come in order and the newest are kept: adding lines in two portions
/// leaves what adding them at once does.
pub proof fn portions_do_not_matter(
    lines: Seq<ConsoleLine>,
    first: Seq<ConsoleLine>,
    second: Seq<ConsoleLine>,
)
    ensures
        kept(kept(lines + first) + second) == kept(lines + first + second),
        kept(lines).len() <= MAX_CONSOLE_LINES,
{
    assert(kept(kept(lines + first) + second) =~= kept(lines + first + second));
}

} // verus!
