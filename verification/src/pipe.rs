use vstd::prelude::*;
use crate::log_sink::{LogSink, StreamTag, extended_by};

verus! {

/// The characters that lossy UTF-8 decoding yields for a byte sequence,
/// invalid sequences replaced rather than rejected. The result depends on
/// the bytes alone.
pub uninterp spec fn lossy_decode(bytes: Seq<u8>) -> Seq<char>;

/// Relies on `String::from_utf8_lossy`: decodes the bytes as UTF-8,
/// substituting the replacement character for invalid sequences. The result
/// is a function of the bytes alone.
#[verifier::external_body]
pub(crate) fn decode_lossy(bytes: &Vec<u8>) -> (r: String)
    ensures
        r@ == lossy_decode(bytes@),
{
    String::from_utf8_lossy(bytes.as_slice()).into_owned()
}

pub open spec fn line_free(s: Seq<u8>) -> bool {
    forall|i: int| 0 <= i < s.len() ==> s[i] != 10u8
}

/// Splits a byte stream on line-feed boundaries: the first component holds
/// the segments each terminated by a line feed, the second what follows the
/// last line feed.
pub open spec fn split_lines(s: Seq<u8>) -> (Seq<Seq<u8>>, Seq<u8>)
    decreases s.len(),
{
    if s.len() == 0 {
        (Seq::<Seq<u8>>::empty(), Seq::<u8>::empty())
    } else {
        let prev = split_lines(s.drop_last());
        if s.last() == 10u8 {
            (prev.0.push(prev.1), Seq::<u8>::empty())
        } else {
            (prev.0, prev.1.push(s.last()))
        }
    }
}

/// The line-feed-terminated segments of a byte stream.
pub open spec fn complete_lines(s: Seq<u8>) -> Seq<Seq<u8>> {
    split_lines(s).0
}

/// What follows the last line feed of a byte stream.
pub open spec fn line_rest(s: Seq<u8>) -> Seq<u8> {
    split_lines(s).1
}

pub proof fn lemma_split_line_free(s: Seq<u8>)
    requires
        line_free(s),
    ensures
        complete_lines(s) == Seq::<Seq<u8>>::empty(),
        line_rest(s) == s,
    decreases s.len(),
{
    if s.len() > 0 {
        lemma_split_line_free(s.drop_last());
        assert(s.drop_last().push(s.last()) =~= s);
    }
}

/// One per-stream worker: splits a byte stream on line feeds, decodes each
/// line lossily, and hands the lines on, tagged. `pending` buffers the bytes
/// of the line still open at the end of the last chunk.
pub struct PipeMonitor {
    pub tag: StreamTag,
    pub show_tag: bool,
    pub pending: Vec<u8>,
}

impl PipeMonitor {
    pub open spec fn wf(&self) -> bool {
        line_free(self.pending@)
    }

    pub fn new(tag: StreamTag, show_tag: bool) -> (r: PipeMonitor)
        ensures
            r.wf(),
            r.tag == tag,
            r.show_tag == show_tag,
            r.pending@ == Seq::<u8>::empty(),
    {
        let r = PipeMonitor { tag, show_tag, pending: Vec::new() };
        proof {
            assert(r.pending@ =~= Seq::<u8>::empty());
        }
        r
    }

    /// Consumes one chunk of the stream: every line completed by a line feed
    /// within `pending + chunk` comes out decoded, in arrival order, and the
    /// bytes after the last line feed stay buffered.
    pub fn feed(&mut self, chunk: &Vec<u8>) -> (out: Vec<String>)
        requires
            old(self).wf(),
        ensures
            final(self).wf(),
            final(self).tag == old(self).tag,
            final(self).show_tag == old(self).show_tag,
            final(self).pending@ == line_rest(old(self).pending@ + chunk@),
            out@.map_values(|s: String| s@) == complete_lines(old(self).pending@ + chunk@)
                .map_values(|l: Seq<u8>| lossy_decode(l)),
    {
        let mut out: Vec<String> = Vec::new();
        proof {
            lemma_split_line_free(old(self).pending@);
            assert(old(self).pending@ + chunk@.take(0) =~= old(self).pending@);
        }
        let mut j: usize = 0;
        while j < chunk.len()
            invariant
                self.wf(),
                self.tag == old(self).tag,
                self.show_tag == old(self).show_tag,
                j <= chunk@.len(),
                self.pending@ == line_rest(old(self).pending@ + chunk@.take(j as int)),
                out@.len() == complete_lines(old(self).pending@ + chunk@.take(j as int)).len(),
                forall|k: int|
                    0 <= k < out@.len() ==> (#[trigger] out@[k])@ == lossy_decode(
                        complete_lines(old(self).pending@ + chunk@.take(j as int))[k],
                    ),
            decreases chunk@.len() - j,
        {
            let ghost prefix = old(self).pending@ + chunk@.take(j as int);
            let b = chunk[j];
            proof {
                assert(prefix.push(b) =~= old(self).pending@ + chunk@.take(j + 1));
                assert((prefix.push(b)).drop_last() =~= prefix);
            }
            if b == 10u8 {
                let ghost out_before = out@;
                let line = decode_lossy(&self.pending);
                out.push(line);
                self.pending.clear();
                proof {
                    assert(self.pending@ =~= Seq::<u8>::empty());
                    assert(complete_lines(prefix.push(b)) == complete_lines(prefix).push(
                        line_rest(prefix),
                    ));
                    assert(out@ == out_before.push(line));
                    assert(line@ == lossy_decode(line_rest(prefix)));
                }
            } else {
                self.pending.push(b);
                proof {
                    assert(complete_lines(prefix.push(b)) == complete_lines(prefix));
                    assert(line_rest(prefix.push(b)) == line_rest(prefix).push(b));
                }
            }
            j = j + 1;
        }
        proof {
            assert(chunk@.take(chunk@.len() as int) =~= chunk@);
            let total = old(self).pending@ + chunk@;
            assert forall|k: int| 0 <= k < out@.len() implies out@.map_values(|s: String| s@)[k]
                == complete_lines(total).map_values(|l: Seq<u8>| lossy_decode(l))[#[trigger] (k
                + 0)] by {
                assert(out@[k]@ == lossy_decode(complete_lines(total)[k]));
            }
            assert(out@.map_values(|s: String| s@) =~= complete_lines(total).map_values(
                |l: Seq<u8>| lossy_decode(l),
            ));
        }
        out
    }

    /// The stream has reached its end: the open line, if any, comes out as a
    /// final segment, as a reader that splits on line feeds yields it.
    pub fn finish(&mut self) -> (out: Option<String>)
        requires
            old(self).wf(),
        ensures
            final(self).wf(),
            final(self).tag == old(self).tag,
            final(self).show_tag == old(self).show_tag,
            final(self).pending@ == Seq::<u8>::empty(),
            match out {
                Some(s) => old(self).pending@.len() > 0 && s@ == lossy_decode(old(self).pending@),
                None => old(self).pending@.len() == 0,
            },
    {
        if self.pending.len() == 0 {
            proof {
                assert(self.pending@ =~= Seq::<u8>::empty());
            }
            None
        } else {
            let line = decode_lossy(&self.pending);
            self.pending.clear();
            proof {
                assert(self.pending@ =~= Seq::<u8>::empty());
            }
            Some(line)
        }
    }

    /// Consumes one chunk and appends every completed line to the sink,
    /// tagged with this monitor's tag and timestamped at arrival. Returns
    /// the decoded lines so that the caller can mirror them to a file.
    pub fn feed_into(&mut self, chunk: &Vec<u8>, sink: &mut LogSink) -> (out: Vec<String>)
        requires
            old(self).wf(),
            old(sink).wf(),
        ensures
            final(self).wf(),
            final(sink).wf(),
            final(sink).cap() == old(sink).cap(),
            final(self).tag == old(self).tag,
            final(self).show_tag == old(self).show_tag,
            final(self).pending@ == line_rest(old(self).pending@ + chunk@),
            out@.map_values(|s: String| s@) == complete_lines(old(self).pending@ + chunk@)
                .map_values(|l: Seq<u8>| lossy_decode(l)),
            extended_by(
                old(sink)@,
                final(sink)@,
                old(sink).cap(),
                old(self).tag,
                complete_lines(old(self).pending@ + chunk@).map_values(
                    |l: Seq<u8>| lossy_decode(l),
                ),
            ),
    {
        let out = self.feed(chunk);
        sink.append_texts(self.tag, &out);
        out
    }
}

} // verus!
