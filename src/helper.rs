//! The channel to the host: requests go out through a writer, network events come in through
//! a reader, one line at a time.
use vstd::prelude::*;
use crate::wire::{
    decode_network_event, notification_json, notification_text, wifi_json, wifi_text,
    network_fields_of, NetworkEvent, WifiStatus, NEWLINE,
};

verus! {

/// std's I/O error, carried through opaque.
#[verifier::external_type_specification]
#[verifier::external_body]
pub struct ExIoError(std::io::Error);

/// `s` holds no newline byte.
pub open spec fn holds_no_newline(s: Seq<u8>) -> bool {
    forall|i: int| 0 <= i < s.len() ==> s[i] != NEWLINE
}

/// `line` is one line of input: not empty, and its one newline, if it has any, is its last
/// byte. A line without a newline is the last one before the input ended.
pub open spec fn is_line(line: Seq<u8>) -> bool {
    line.len() > 0 && holds_no_newline(line.drop_last())
}

/// Each of `lines` is a line ended by a newline that holds no network event.
pub open spec fn all_malformed(lines: Seq<Seq<u8>>) -> bool {
    forall|i: int|
        0 <= i < lines.len() ==> is_line(#[trigger] lines[i]) && lines[i].last() == NEWLINE
            && network_fields_of(lines[i]) is None
}

/// A wait that read `skipped`, then `last`, and ended on `last`: the skipped lines hold no
/// network event, and `last` is a line.
pub open spec fn skips_to_line(skipped: Seq<Seq<u8>>, last: Seq<u8>) -> bool {
    all_malformed(skipped) && is_line(last)
}

/// A wait that read `skipped`, then the start `rest` of a line, and failed.
pub open spec fn skips_to_failure(skipped: Seq<Seq<u8>>, rest: Seq<u8>) -> bool {
    all_malformed(skipped) && holds_no_newline(rest)
}

/// One answer of the reader: a byte, an error, or `None` at its end.
pub type ReaderAnswer = Option<Result<u8, std::io::Error>>;

/// `a` is a byte of the reader.
pub open spec fn is_byte(a: ReaderAnswer) -> bool {
    a matches Some(Ok(_))
}

/// The bytes among the reader's `answers`, in order.
pub open spec fn bytes_of(answers: Seq<ReaderAnswer>) -> Seq<u8>
    decreases answers.len(),
{
    if answers.len() == 0 {
        Seq::empty()
    } else {
        match answers.last() {
            Some(Ok(b)) => bytes_of(answers.drop_last()).push(b),
            _ => bytes_of(answers.drop_last()),
        }
    }
}

/// The reader answered `before` and then at least once more: bytes, but for the last answer,
/// which may be anything.
pub open spec fn answered_after(before: Seq<ReaderAnswer>, after: Seq<ReaderAnswer>) -> bool {
    &&& after.len() > before.len()
    &&& after.subrange(0, before.len() as int) == before
    &&& forall|i: int| before.len() <= i < after.len() - 1 ==> is_byte(#[trigger] after[i])
}

/// What one answer of the reader does to the line being read.
pub enum LineStep {
    /// The line goes on.
    More,
    /// The line ended and held no network event: it is dropped.
    Skip,
    /// The line ended and held this network event.
    Event(NetworkEvent),
    /// The reader ended with no network event on the last line.
    End,
}

/// Takes the reader's next byte, or `None` at its end, into the line read so far.
pub fn line_step(line: &mut Vec<u8>, input: Option<u8>) -> (r: LineStep)
    requires
        holds_no_newline(old(line)@),
    ensures
        input is Some && input->Some_0 != NEWLINE ==> r is More && final(line)@ == old(line)@.push(
            input->Some_0,
        ),
        input == Some(NEWLINE) ==> final(line)@ == Seq::<u8>::empty(),
        input == Some(NEWLINE) && network_fields_of(old(line)@.push(NEWLINE)) is None ==> r is Skip,
        input == Some(NEWLINE) && network_fields_of(old(line)@.push(NEWLINE)) is Some ==> (r matches LineStep::Event(e)
            && network_fields_of(old(line)@.push(NEWLINE)) == Some((e.kind@, e.status@))),
        input is None ==> final(line)@ == old(line)@,
        input is None && old(line)@.len() > 0 && network_fields_of(old(line)@) is Some ==> (r matches LineStep::Event(e)
            && network_fields_of(old(line)@) == Some((e.kind@, e.status@))),
        input is None && (old(line)@.len() == 0 || network_fields_of(old(line)@) is None) ==> r is End,
{
    match input {
        Some(b) => {
            line.push(b);
            if b == NEWLINE {
                let found = decode_network_event(line.as_slice());
                *line = Vec::new();
                match found {
                    Some(e) => LineStep::Event(e),
                    None => LineStep::Skip,
                }
            } else {
                LineStep::More
            }
        },
        None => {
            if line.len() == 0 {
                LineStep::End
            } else {
                match decode_network_event(line.as_slice()) {
                    Some(e) => LineStep::Event(e),
                    None => LineStep::End,
                }
            }
        },
    }
}

/// Relies on std::io::Write::write_all: it writes every byte of `text` or returns an error.
#[verifier::external_body]
fn write_all_text<W: std::io::Write>(writer: &mut W, text: &str) -> (r: Result<
    (),
    std::io::Error,
>) {
    writer.write_all(text.as_bytes())
}

/// Relies on std::io::Read::bytes: the next byte of the reader, an error, or `None` once the
/// reader has ended.
#[verifier::external_body]
fn next_byte<R: std::io::Read>(reader: &mut R) -> (r: Option<Result<u8, std::io::Error>>) {
    std::io::Read::bytes(reader).next()
}

/// Relies on std::io::Error::new, which wraps a serde_json error as an I/O error of kind
/// `Other`.
#[verifier::external_body]
fn io_error_from_json(e: serde_json::Error) -> (r: std::io::Error) {
    std::io::Error::new(std::io::ErrorKind::Other, e)
}

/// Relies on std::io::Error::from, which makes an error of the kind `UnexpectedEof`.
#[verifier::external_body]
fn end_of_input() -> (r: std::io::Error) {
    std::io::Error::from(std::io::ErrorKind::UnexpectedEof)
}

/// Relies on std::io::Error::new, which makes an error of the kind `Other` with a message.
#[verifier::external_body]
fn io_error_other(message: &str) -> (r: std::io::Error) {
    std::io::Error::new(std::io::ErrorKind::Other, message)
}

/// std's handle to the process's standard output, carried through opaque.
#[verifier::external_type_specification]
#[verifier::external_body]
pub struct ExStdout(std::io::Stdout);

/// std's handle to the process's standard input, carried through opaque.
#[verifier::external_type_specification]
#[verifier::external_body]
pub struct ExStdin(std::io::Stdin);

/// Relies on std::io::stdout: a handle to the process's standard output.
#[verifier::external_body]
fn standard_output() -> (r: std::io::Stdout) {
    std::io::stdout()
}

/// Relies on std::io::stdin: a handle to the process's standard input.
#[verifier::external_body]
fn standard_input() -> (r: std::io::Stdin) {
    std::io::stdin()
}

/// A helper for talking to the Plato e-reader software: JSON requests go to `writer`, by
/// default standard output, and network events are read from `reader`.
pub struct PlatoHelper<W, R> {
    writer: W,
    reader: R,
    sent: Ghost<Seq<char>>,
    answers: Ghost<Seq<ReaderAnswer>>,
}

impl<W, R> PlatoHelper<W, R> {
    /// The text that the writer has accepted whole, request after request.
    pub closed spec fn sent(&self) -> Seq<char> {
        self.sent@
    }

    /// Every answer of the reader so far, in order.
    pub closed spec fn answers(&self) -> Seq<ReaderAnswer> {
        self.answers@
    }

    /// The bytes taken from the reader so far.
    pub open spec fn received(&self) -> Seq<u8> {
        bytes_of(self.answers())
    }
}

impl Default for PlatoHelper<std::io::Stdout, std::io::Stdin> {
    /// A helper that writes to standard output and reads from standard input.
    fn default() -> (r: Self)
        ensures
            r.sent() == Seq::<char>::empty(),
            r.answers() == Seq::<ReaderAnswer>::empty(),
    {
        PlatoHelper::new(standard_output(), standard_input())
    }
}

impl<W: std::io::Write, R: std::io::Read> PlatoHelper<W, R> {
    /// A helper that writes requests to `writer` and reads events from `reader`.
    pub fn new(writer: W, reader: R) -> (r: Self)
        ensures
            r.sent() == Seq::<char>::empty(),
            r.answers() == Seq::<ReaderAnswer>::empty(),
    {
        PlatoHelper { writer, reader, sent: Ghost(Seq::empty()), answers: Ghost(Seq::empty()) }
    }

    /// Writes `text` to the writer, with nothing before or after it.
    fn write_text(&mut self, text: &str) -> (r: Result<(), std::io::Error>)
        ensures
            final(self).answers() == old(self).answers(),
            r is Ok ==> final(self).sent() == old(self).sent() + text@,
            r is Err ==> final(self).sent() == old(self).sent(),
    {
        let r = write_all_text(&mut self.writer, text);
        if r.is_ok() {
            self.sent = Ghost(self.sent@ + text@);
        }
        r
    }

    /// Displays a notification on the device with the given `message`.
    pub fn display_notification(&mut self, message: &str) -> (r: Result<(), std::io::Error>)
        ensures
            final(self).answers() == old(self).answers(),
            r is Ok ==> final(self).sent() == old(self).sent() + notification_text(message@),
            r is Err ==> final(self).sent() == old(self).sent(),
    {
        match notification_json(message) {
            Ok(text) => self.write_text(text.as_str()),
            Err(e) => Err(io_error_from_json(e)),
        }
    }

    /// Sets the device's Wi-Fi state to `status`.
    pub fn set_wifi(&mut self, status: WifiStatus) -> (r: Result<(), std::io::Error>)
        ensures
            final(self).answers() == old(self).answers(),
            r is Ok ==> final(self).sent() == old(self).sent() + wifi_text(status),
            r is Err ==> final(self).sent() == old(self).sent(),
    {
        let text = wifi_json(status);
        self.write_text(text.as_str())
    }
    /// Waits until a network event is received from the reader, one line at a time: a line that
    /// holds no event is skipped, and the first one that holds an event ends the wait. Nothing
    /// past that line is read. An error of the reader is handed on; the reader's end gives an
    /// `UnexpectedEof` error, once a last line without a newline holds no event; and the wait
    /// gives up with an error after `u64::MAX` bytes without an event.
    pub fn wait_for_network_blocking(&mut self) -> (r: Result<NetworkEvent, std::io::Error>)
        ensures
            final(self).sent() == old(self).sent(),
            answered_after(old(self).answers(), final(self).answers()),
            r is Ok ==> final(self).received().len() > old(self).received().len(),
            r matches Ok(e) ==> exists|skipped: Seq<Seq<u8>>, last: Seq<u8>|
                #[trigger] skips_to_line(skipped, last)
                    && network_fields_of(last) == Some((e.kind@, e.status@))
                    && final(self).received() == old(self).received() + skipped.flatten() + last
                    && (is_byte(final(self).answers().last()) && last.last() == NEWLINE
                        || final(self).answers().last() is None),
            r matches Err(err) ==> exists|skipped: Seq<Seq<u8>>, rest: Seq<u8>|
                #[trigger] skips_to_failure(skipped, rest)
                    && final(self).received() == old(self).received() + skipped.flatten() + rest
                    && (final(self).answers().last() == Some(Err::<u8, std::io::Error>(err))
                        || final(self).answers().last() is None
                            && (rest.len() == 0 || network_fields_of(rest) is None)
                        || is_byte(final(self).answers().last())
                            && final(self).answers().len() - old(self).answers().len() == u64::MAX),
    {
        broadcast use Seq::lemma_flatten_push;

        let ghost start = self.answers@;
        let ghost mut skipped: Seq<Seq<u8>> = Seq::empty();
        let mut line: Vec<u8> = Vec::new();
        let mut budget: u64 = u64::MAX;
        loop
            invariant
                self.sent@ == old(self).sent@,
                start == old(self).answers@,
                self.answers@.len() == start.len() + (u64::MAX - budget),
                self.answers@.subrange(0, start.len() as int) == start,
                forall|i: int| start.len() <= i < self.answers@.len() ==> is_byte(#[trigger] self.answers@[i]),
                bytes_of(self.answers@) == bytes_of(start) + skipped.flatten() + line@,
                all_malformed(skipped),
                holds_no_newline(line@),
            decreases budget,
        {
            if budget == 0 {
                assert(skips_to_failure(skipped, line@));
                assert(is_byte(self.answers@.last()));
                return Err(io_error_other("no network event within the byte limit"));
            }
            budget = budget - 1;
            let answer = next_byte(&mut self.reader);
            let ghost before = self.answers@;
            let ghost old_line = line@;
            self.answers = Ghost(self.answers@.push(answer));
            assert(self.answers@.drop_last() =~= before);
            assert(self.answers@.subrange(0, start.len() as int) =~= start);
            match answer {
                Some(Ok(b)) => {
                    assert(bytes_of(self.answers@) == bytes_of(before).push(b));
                    match line_step(&mut line, Some(b)) {
                        LineStep::Event(e) => {
                            assert(old_line.push(b).drop_last() =~= old_line);
                            assert(bytes_of(self.answers@) =~= bytes_of(start) + skipped.flatten() + old_line.push(b));
                            assert(skips_to_line(skipped, old_line.push(b)));
                            return Ok(e);
                        },
                        LineStep::Skip => {
                            proof {
                                assert(old_line.push(b).drop_last() =~= old_line);
                                skipped.lemma_flatten_push(old_line.push(b));
                                assert(bytes_of(self.answers@) =~= bytes_of(start)
                                    + skipped.push(old_line.push(b)).flatten() + line@);
                                skipped = skipped.push(old_line.push(b));
                            }
                        },
                        _ => {
                            assert(bytes_of(self.answers@) =~= bytes_of(start) + skipped.flatten() + line@);
                        },
                    }
                },
                Some(Err(e)) => {
                    assert(bytes_of(self.answers@) == bytes_of(before));
                    assert(skips_to_failure(skipped, line@));
                    return Err(e);
                },
                None => {
                    assert(bytes_of(self.answers@) == bytes_of(before));
                    match line_step(&mut line, None) {
                        LineStep::Event(e) => {
                            assert(line@.drop_last() =~= line@.subrange(0, line@.len() - 1));
                            assert(skips_to_line(skipped, line@));
                            return Ok(e);
                        },
                        _ => {
                            assert(skips_to_failure(skipped, line@));
                            return Err(end_of_input());
                        },
                    }
                },
            }
        }
    }
}

} // verus!
