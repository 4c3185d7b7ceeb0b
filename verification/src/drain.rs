//! Draining of a piped child stream: the incoming bytes are split at line
//! feeds into raw lines, each raw line is decoded as UTF-8, and every
//! decoded line is handed out tagged with its origin, to be emitted through
//! the logging sink at the fixed severity of that origin.

use vstd::prelude::*;
use vstd::utf8::{decode_utf8, valid_utf8};

verus! {

/// The byte at which a captured stream is split into lines.
pub const LINE_FEED: u8 = 0x0a;

/// Which child stream a captured line came from.
#[derive(Clone, Copy, Debug, PartialEq, Eq, Structural)]
pub enum StreamOrigin {
    Stdout,
    Stderr,
}

/// The severity at which a captured line is emitted through the sink.
#[derive(Clone, Copy, Debug, PartialEq, Eq, Structural)]
pub enum Severity {
    Info,
    Error,
}

/// The fixed severity mapping: stdout lines are informational, stderr
/// lines are errors. Not configurable.
pub open spec fn severity_for_origin(origin: StreamOrigin) -> Severity {
    match origin {
        StreamOrigin::Stdout => Severity::Info,
        StreamOrigin::Stderr => Severity::Error,
    }
}

/// Returns the severity at which lines of the given origin are emitted.
pub fn severity_for(origin: StreamOrigin) -> (s: Severity)
    ensures
        s == severity_for_origin(origin),
{
    match origin {
        StreamOrigin::Stdout => Severity::Info,
        StreamOrigin::Stderr => Severity::Error,
    }
}

/// One decoded text line read from a piped stream, tagged with its origin.
#[derive(Clone, Debug)]
pub struct CapturedLine {
    pub origin: StreamOrigin,
    pub text: String,
}

/// A byte sequence on the named stream was not valid UTF-8. Fatal to that
/// stream's drainer; nothing more is drained from it.
#[derive(Clone, Copy, Debug, PartialEq, Eq, Structural)]
pub struct DecodeError {
    pub origin: StreamOrigin,
}

/// The raw lines completed by the bytes `s`, given that `cur` holds the
/// bytes of the current line read so far. A line is completed by each line
/// feed; bytes after the last line feed complete no line.
pub open spec fn complete_lines(s: Seq<u8>, cur: Seq<u8>) -> Seq<Seq<u8>>
    decreases s.len(),
{
    if s.len() == 0 {
        Seq::empty()
    } else if s[0] == LINE_FEED {
        seq![cur] + complete_lines(s.skip(1), Seq::empty())
    } else {
        complete_lines(s.skip(1), cur.push(s[0]))
    }
}

/// The bytes of the still-unterminated final line after reading `s`, given
/// that `cur` holds the bytes of the current line read so far.
pub open spec fn pending_after(s: Seq<u8>, cur: Seq<u8>) -> Seq<u8>
    decreases s.len(),
{
    if s.len() == 0 {
        cur
    } else if s[0] == LINE_FEED {
        pending_after(s.skip(1), Seq::empty())
    } else {
        pending_after(s.skip(1), cur.push(s[0]))
    }
}

/// The captured lines `lines` are exactly the raw lines `raw`, in order:
/// every raw line is valid UTF-8, and each captured line carries its
/// decoding and the given origin.
pub open spec fn lines_match(lines: Seq<CapturedLine>, raw: Seq<Seq<u8>>, origin: StreamOrigin) -> bool {
    &&& lines.len() == raw.len()
    &&& forall|i: int| 0 <= i < raw.len() ==> valid_utf8(#[trigger] raw[i])
    &&& forall|i: int|
        0 <= i < raw.len() ==> (#[trigger] lines[i]).text@ == decode_utf8(raw[i]) && lines[i].origin
            == origin
}

/// Relies on `String::from_utf8` (std): it returns `Ok` exactly when the
/// bytes are a valid UTF-8 encoding, and then the string is their decoding.
#[verifier::external_body]
fn decode_bytes(bytes: &Vec<u8>) -> (r: Option<String>)
    ensures
        r is Some <==> valid_utf8(bytes@),
        r matches Some(s) ==> s@ == decode_utf8(bytes@),
{
    match String::from_utf8(bytes.clone()) {
        Ok(s) => Some(s),
        Err(_) => None,
    }
}

/// Splits one piped stream into lines, in arbitrary chunks, and decodes
/// each completed line. One drainer owns one pipe exclusively; it never
/// sees the other stream's bytes.
pub struct StreamDrainer {
    origin: StreamOrigin,
    pending: Vec<u8>,
}

impl StreamDrainer {
    /// The stream this drainer was created for.
    pub closed spec fn stream_origin(&self) -> StreamOrigin {
        self.origin
    }

    /// The bytes of the current, still-unterminated line.
    pub closed spec fn pending_bytes(&self) -> Seq<u8> {
        self.pending@
    }

    /// A fresh drainer for the given stream, with no bytes read yet.
    pub fn new(origin: StreamOrigin) -> (d: Self)
        ensures
            d.stream_origin() == origin,
            d.pending_bytes() == Seq::<u8>::empty(),
    {
        StreamDrainer { origin, pending: Vec::new() }
    }

    /// Consumes the next chunk of bytes read from the pipe and returns the
    /// lines it completes, decoded and in the order they appeared. A chunk
    /// boundary may fall anywhere, including inside a line. A line that is
    /// not valid UTF-8 is fatal: the error is returned and the chunk's
    /// remaining lines are not emitted.
    pub fn push_chunk(&mut self, chunk: &[u8]) -> (r: Result<Vec<CapturedLine>, DecodeError>)
        ensures
            final(self).stream_origin() == old(self).stream_origin(),
            match r {
                Ok(lines) => {
                    &&& final(self).pending_bytes() == pending_after(
                        chunk@,
                        old(self).pending_bytes(),
                    )
                    &&& lines_match(
                        lines@,
                        complete_lines(chunk@, old(self).pending_bytes()),
                        old(self).stream_origin(),
                    )
                },
                Err(e) => {
                    &&& e.origin == old(self).stream_origin()
                    &&& exists|i: int|
                        0 <= i < complete_lines(chunk@, old(self).pending_bytes()).len()
                            && !valid_utf8(
                            #[trigger] complete_lines(chunk@, old(self).pending_bytes())[i],
                        )
                },
            },
    {
        let ghost orig_pending: Seq<u8> = self.pending@;
        let ghost origin = self.origin;
        let mut lines: Vec<CapturedLine> = Vec::new();
        let ghost mut emitted: Seq<Seq<u8>> = Seq::empty();
        let mut i: usize = 0;
        proof {
            assert(chunk@.skip(0) =~= chunk@);
        }
        #[verifier::loop_isolation(false)]
        while i < chunk.len()
            invariant
                i <= chunk@.len(),
                self.origin == origin,
                complete_lines(chunk@, orig_pending) == emitted + complete_lines(
                    chunk@.skip(i as int),
                    self.pending@,
                ),
                pending_after(chunk@, orig_pending) == pending_after(
                    chunk@.skip(i as int),
                    self.pending@,
                ),
                lines_match(lines@, emitted, origin),
            decreases chunk@.len() - i,
        {
            let b = chunk[i];
            proof {
                assert(chunk@.skip(i as int)[0] == b);
                assert(chunk@.skip(i as int).skip(1) =~= chunk@.skip(i as int + 1));
            }
            if b == LINE_FEED {
                proof {
                    assert(complete_lines(chunk@.skip(i as int), self.pending@) == seq![
                        self.pending@,
                    ] + complete_lines(chunk@.skip(i as int + 1), Seq::<u8>::empty()));
                }
                match decode_bytes(&self.pending) {
                    Some(text) => {
                        let line = CapturedLine { origin: self.origin, text };
                        lines.push(line);
                        proof {
                            assert(emitted.push(self.pending@) + complete_lines(
                                chunk@.skip(i as int + 1),
                                Seq::<u8>::empty(),
                            ) =~= emitted + complete_lines(chunk@.skip(i as int), self.pending@));
                            emitted = emitted.push(self.pending@);
                        }
                        self.pending.clear();
                    },
                    None => {
                        proof {
                            let total = complete_lines(chunk@, old(self).pending_bytes());
                            assert(complete_lines(chunk@.skip(i as int), self.pending@).len() >= 1);
                            assert(0 <= emitted.len() < total.len());
                            assert(total[emitted.len() as int] == self.pending@);
                            assert(!valid_utf8(total[emitted.len() as int]));
                        }
                        return Err(DecodeError { origin: self.origin });
                    },
                }
            } else {
                self.pending.push(b);
            }
            i = i + 1;
        }
        proof {
            assert(chunk@.skip(chunk@.len() as int) =~= Seq::<u8>::empty());
        }
        Ok(lines)
    }

    /// Ends the drain at end-of-file: a final line not terminated by a line
    /// feed is decoded and returned; with nothing pending there is no final
    /// line.
    pub fn finish(self) -> (r: Result<Option<CapturedLine>, DecodeError>)
        ensures
            self.pending_bytes().len() == 0 ==> (r matches Ok(o) && o is None),
            self.pending_bytes().len() > 0 && valid_utf8(self.pending_bytes()) ==> (r matches Ok(o)
                && o matches Some(line) && line.origin == self.stream_origin() && line.text@
                == decode_utf8(self.pending_bytes())),
            self.pending_bytes().len() > 0 && !valid_utf8(self.pending_bytes()) ==> (r matches Err(
                e,
            ) && e.origin == self.stream_origin()),
    {
        if self.pending.len() == 0 {
            Ok(None)
        } else {
            match decode_bytes(&self.pending) {
                Some(text) => Ok(Some(CapturedLine { origin: self.origin, text })),
                None => Err(DecodeError { origin: self.origin }),
            }
        }
    }
}

/// Chunking law: splitting a stream that arrives in two chunks completes
/// the same lines, and leaves the same bytes pending, as splitting the two
/// chunks joined. Draining a pipe chunk by chunk therefore emits exactly
/// the lines of the whole stream, wherever the chunk boundaries fall.
pub proof fn lemma_chunks_join(a: Seq<u8>, b: Seq<u8>, cur: Seq<u8>)
    ensures
        complete_lines(a + b, cur) == complete_lines(a, cur) + complete_lines(
            b,
            pending_after(a, cur),
        ),
        pending_after(a + b, cur) == pending_after(b, pending_after(a, cur)),
    decreases a.len(),
{
    if a.len() == 0 {
        assert(a + b =~= b);
        assert(complete_lines(a, cur) + complete_lines(b, cur) =~= complete_lines(b, cur));
    } else {
        assert((a + b).skip(1) =~= a.skip(1) + b);
        if a[0] == LINE_FEED {
            lemma_chunks_join(a.skip(1), b, Seq::empty());
            assert(complete_lines(a + b, cur) =~= complete_lines(a, cur) + complete_lines(
                b,
                pending_after(a, cur),
            ));
        } else {
            lemma_chunks_join(a.skip(1), b, cur.push(a[0]));
        }
    }
}

/// The bytes a child writes when it emits exactly these lines: each line
/// followed by one line feed.
pub open spec fn encode_stream(lines: Seq<Seq<u8>>) -> Seq<u8>
    decreases lines.len(),
{
    if lines.len() == 0 {
        Seq::empty()
    } else {
        lines[0] + seq![LINE_FEED] + encode_stream(lines.skip(1))
    }
}

/// Reading a line-feed-free prefix only lengthens the current line: the
/// lines completed, and the bytes left pending, are those of the remaining
/// input with the prefix appended to the current line.
proof fn lemma_line_prefix(l: Seq<u8>, t: Seq<u8>, cur: Seq<u8>)
    requires
        forall|i: int| 0 <= i < l.len() ==> #[trigger] l[i] != LINE_FEED,
    ensures
        complete_lines(l + t, cur) == complete_lines(t, cur + l),
        pending_after(l + t, cur) == pending_after(t, cur + l),
    decreases l.len(),
{
    if l.len() == 0 {
        assert(l + t =~= t);
        assert(cur + l =~= cur);
    } else {
        assert((l + t).skip(1) =~= l.skip(1) + t);
        lemma_line_prefix(l.skip(1), t, cur.push(l[0]));
        assert(cur.push(l[0]) + l.skip(1) =~= cur + l);
    }
}

/// Drain completeness law: a child that writes exactly these lines, each
/// free of line feeds and each terminated by one, has exactly these lines
/// completed by the splitter, byte for byte and in order, with nothing
/// left pending at end-of-file.
pub proof fn lemma_drain_completeness(lines: Seq<Seq<u8>>)
    requires
        forall|i: int, j: int|
            0 <= i < lines.len() && 0 <= j < lines[i].len() ==> #[trigger] lines[i][j] != LINE_FEED,
    ensures
        complete_lines(encode_stream(lines), Seq::empty()) == lines,
        pending_after(encode_stream(lines), Seq::empty()) == Seq::<u8>::empty(),
    decreases lines.len(),
{
    if lines.len() == 0 {
    } else {
        let l0 = lines[0];
        let rest = encode_stream(lines.skip(1));
        let tail = seq![LINE_FEED] + rest;
        assert(encode_stream(lines) =~= l0 + tail);
        lemma_line_prefix(l0, tail, Seq::empty());
        assert(Seq::<u8>::empty() + l0 =~= l0);
        assert(tail[0] == LINE_FEED);
        assert(tail.skip(1) =~= rest);
        assert(complete_lines(tail, l0) == seq![l0] + complete_lines(rest, Seq::empty()));
        assert(forall|i: int, j: int|
            0 <= i < lines.skip(1).len() && 0 <= j < lines.skip(1)[i].len()
                ==> #[trigger] lines.skip(1)[i][j] != LINE_FEED) by {
            assert(forall|i: int| 0 <= i < lines.skip(1).len() ==> lines.skip(1)[i] == lines[i + 1]);
        }
        lemma_drain_completeness(lines.skip(1));
        assert(complete_lines(encode_stream(lines), Seq::empty()) =~= lines);
    }
}

} // verus!
