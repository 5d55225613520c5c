use vstd::prelude::*;
use vstd::string::StringExecFns;
use crate::clock;

verus! {

/// Which stream of the backend a log line came from; `Info` marks lines
/// the supervisor itself produced.
#[derive(Clone, Copy, PartialEq, Eq, Structural, Debug)]
pub enum StreamTag {
    Stdout,
    Stderr,
    Info,
}

/// One timestamped entry of the log buffer. Immutable once appended.
pub struct LogLine {
    pub timestamp: String,
    pub tag: StreamTag,
    pub text: String,
}

/// The mathematical model of a log line: its character sequences and tag.
pub ghost struct LogLineModel {
    pub timestamp: Seq<char>,
    pub tag: StreamTag,
    pub text: Seq<char>,
}

impl View for LogLine {
    type V = LogLineModel;

    open spec fn view(&self) -> LogLineModel {
        LogLineModel { timestamp: self.timestamp@, tag: self.tag, text: self.text@ }
    }
}

/// The bracketed marker that names a line's stream when the tag is shown.
pub open spec fn spec_tag_prefix(tag: StreamTag) -> Seq<char> {
    match tag {
        StreamTag::Stdout => "[OUT] "@,
        StreamTag::Stderr => "[ERR] "@,
        StreamTag::Info => "[INFO] "@,
    }
}

pub fn tag_prefix(tag: StreamTag) -> (r: String)
    ensures
        r@ == spec_tag_prefix(tag),
{
    match tag {
        StreamTag::Stdout => String::from_str("[OUT] "),
        StreamTag::Stderr => String::from_str("[ERR] "),
        StreamTag::Info => String::from_str("[INFO] "),
    }
}

/// A line's text with its stream marker in front, as it is mirrored to a
/// log file.
pub fn tagged_text(tag: StreamTag, text: &String) -> (r: String)
    ensures
        r@ == spec_tag_prefix(tag) + text@,
{
    let mut r = tag_prefix(tag);
    r.append(text.as_str());
    r
}

/// How one entry is rendered: bracketed timestamp, then the stream marker
/// when `show_tag` holds, then the text.
pub open spec fn spec_formatted(l: LogLineModel, show_tag: bool) -> Seq<char> {
    "["@ + l.timestamp + "] "@ + (if show_tag {
        spec_tag_prefix(l.tag)
    } else {
        Seq::<char>::empty()
    }) + l.text
}

impl LogLine {
    /// An exact copy of the line.
    pub fn duplicate(&self) -> (r: LogLine)
        ensures
            r == *self,
    {
        LogLine { timestamp: self.timestamp.clone(), tag: self.tag, text: self.text.clone() }
    }

    /// Renders the entry for display or persistence.
    pub fn formatted(&self, show_tag: bool) -> (r: String)
        ensures
            r@ == spec_formatted(self@, show_tag),
    {
        let mut r = String::from_str("[");
        r.append(self.timestamp.as_str());
        r.append("] ");
        if show_tag {
            let p = tag_prefix(self.tag);
            r.append(p.as_str());
        }
        r.append(self.text.as_str());
        proof {
            assert(r@ =~= spec_formatted(self@, show_tag));
        }
        r
    }
}

/// What one bounded append does to the buffer's contents: when the buffer
/// already holds `cap` lines, the oldest is evicted as the new line comes in.
pub open spec fn evict_push(s: Seq<LogLineModel>, cap: nat, l: LogLineModel) -> Seq<LogLineModel> {
    if s.len() >= cap {
        s.drop_first().push(l)
    } else {
        s.push(l)
    }
}

/// The contents after a whole sequence of bounded appends.
pub open spec fn fold_appends(init: Seq<LogLineModel>, cap: nat, ls: Seq<LogLineModel>) -> Seq<
    LogLineModel,
>
    decreases ls.len(),
{
    if ls.len() == 0 {
        init
    } else {
        fold_appends(evict_push(init, cap, ls[0]), cap, ls.drop_first())
    }
}

/// Law: for all sequences of appends, a buffer that starts within capacity
/// stays within capacity, and the most recently appended line is retained.
pub proof fn lemma_appends_bounded(init: Seq<LogLineModel>, cap: nat, ls: Seq<LogLineModel>)
    requires
        cap >= 1,
        init.len() <= cap,
    ensures
        fold_appends(init, cap, ls).len() <= cap,
        ls.len() > 0 ==> fold_appends(init, cap, ls).last() == ls.last(),
    decreases ls.len(),
{
    if ls.len() > 0 {
        let next = evict_push(init, cap, ls[0]);
        assert(next.len() <= cap);
        lemma_appends_bounded(next, cap, ls.drop_first());
        if ls.len() == 1 {
            assert(fold_appends(init, cap, ls) == next);
            assert(next.last() == ls[0]);
        } else {
            assert(ls.drop_first().last() == ls.last());
        }
    }
}

pub open spec fn min_int(a: int, b: int) -> int {
    if a <= b {
        a
    } else {
        b
    }
}

/// Relates the buffer's contents before and after appending one line per
/// entry of `texts`, each tagged `tag`, in order: the buffer ends at
/// `min(old length + texts, cap)` lines, the newest entries carry the texts
/// in order, and whatever survives of the old contents is its suffix,
/// shifted down by the number of evictions. The timestamps of the new
/// entries are left open: each line is stamped at its own arrival.
pub open spec fn extended_by(
    a: Seq<LogLineModel>,
    b: Seq<LogLineModel>,
    cap: nat,
    tag: StreamTag,
    texts: Seq<Seq<char>>,
) -> bool {
    let n = texts.len() as int;
    &&& b.len() == min_int(a.len() + n, cap as int)
    &&& forall|i: int|
        0 <= i < b.len() - n ==> #[trigger] b[i] == a[i + a.len() + n - b.len()]
    &&& forall|i: int|
        0 <= i < b.len() && b.len() - n <= i ==> (#[trigger] b[i]).tag == tag && b[i].text
            == texts[i - b.len() + n]
}

pub proof fn lemma_extended_refl(a: Seq<LogLineModel>, cap: nat, tag: StreamTag)
    requires
        a.len() <= cap,
    ensures
        extended_by(a, a, cap, tag, Seq::<Seq<char>>::empty()),
{
}

/// One more bounded append extends an `extended_by` relation by one text.
pub proof fn lemma_extended_step(
    a: Seq<LogLineModel>,
    b: Seq<LogLineModel>,
    cap: nat,
    tag: StreamTag,
    texts: Seq<Seq<char>>,
    l: LogLineModel,
)
    requires
        cap >= 1,
        a.len() <= cap,
        extended_by(a, b, cap, tag, texts),
        l.tag == tag,
    ensures
        extended_by(a, evict_push(b, cap, l), cap, tag, texts.push(l.text)),
{
    let c = evict_push(b, cap, l);
    let n = texts.len() as int;
    assert(c.len() == min_int(a.len() + n + 1, cap as int));
    assert forall|i: int| 0 <= i < c.len() - (n + 1) implies #[trigger] c[i] == a[i + a.len() + n
        + 1 - c.len()] by {
        if b.len() >= cap {
            assert(c[i] == b[i + 1]);
        } else {
            assert(c[i] == b[i]);
        }
    }
    assert forall|i: int| 0 <= i < c.len() && c.len() - (n + 1) <= i implies (#[trigger] c[i]).tag
        == tag && c[i].text == texts.push(l.text)[i - c.len() + n + 1] by {
        if i == c.len() - 1 {
            assert(c[i] == l);
        } else {
            if b.len() >= cap {
                assert(c[i] == b[i + 1]);
            } else {
                assert(c[i] == b[i]);
            }
        }
    }
}

/// A bounded, ordered buffer of timestamped log lines. When full, the oldest
/// entry is evicted as a new one is appended.
pub struct LogSink {
    lines: std::collections::VecDeque<LogLine>,
    capacity: usize,
}

impl View for LogSink {
    type V = Seq<LogLineModel>;

    closed spec fn view(&self) -> Seq<LogLineModel> {
        self.lines@.map_values(|l: LogLine| l@)
    }
}

impl LogSink {
    pub closed spec fn cap(&self) -> nat {
        self.capacity as nat
    }

    pub closed spec fn wf(&self) -> bool {
        &&& self.capacity >= 1
        &&& self@.len() <= self.cap()
    }

    /// An empty sink that will hold at most `capacity` lines.
    pub fn new(capacity: usize) -> (r: LogSink)
        requires
            capacity >= 1,
        ensures
            r.wf(),
            r@ == Seq::<LogLineModel>::empty(),
            r.cap() == capacity,
    {
        let r = LogSink { lines: std::collections::VecDeque::new(), capacity };
        proof {
            assert(r@ =~= Seq::<LogLineModel>::empty());
        }
        r
    }

    /// Appends one line, evicting the oldest entry first when the buffer
    /// is full, so the buffer never exceeds its capacity and always retains
    /// the newest line.
    pub fn append(&mut self, line: LogLine)
        requires
            old(self).wf(),
        ensures
            final(self).wf(),
            final(self).cap() == old(self).cap(),
            final(self)@ == evict_push(old(self)@, old(self).cap(), line@),
            final(self)@.len() <= old(self).cap(),
            final(self)@.last() == line@,
    {
        if self.lines.len() == self.capacity {
            self.lines.pop_front();
        }
        self.lines.push_back(line);
        proof {
            assert(final(self)@ =~= evict_push(old(self)@, old(self).cap(), line@));
        }
    }

    /// Appends one line tagged `tag` with text `text`, timestamped at the
    /// moment of the call.
    pub fn append_now(&mut self, tag: StreamTag, text: String)
        requires
            old(self).wf(),
        ensures
            final(self).wf(),
            final(self).cap() == old(self).cap(),
            final(self)@ == evict_push(old(self)@, old(self).cap(), final(self)@.last()),
            final(self)@.last().tag == tag,
            final(self)@.last().text == text@,
    {
        let timestamp = clock::now_timestamp();
        self.append(LogLine { timestamp, tag, text });
    }

    /// Appends one line per entry of `texts`, all tagged `tag`, in order,
    /// each timestamped at its own arrival.
    pub fn append_texts(&mut self, tag: StreamTag, texts: &Vec<String>)
        requires
            old(self).wf(),
        ensures
            final(self).wf(),
            final(self).cap() == old(self).cap(),
            extended_by(
                old(self)@,
                final(self)@,
                old(self).cap(),
                tag,
                texts@.map_values(|s: String| s@),
            ),
    {
        let ghost models = texts@.map_values(|s: String| s@);
        let mut j: usize = 0;
        proof {
            lemma_extended_refl(old(self)@, old(self).cap(), tag);
            assert(models.take(0) =~= Seq::<Seq<char>>::empty());
        }
        while j < texts.len()
            invariant
                old(self).wf(),
                self.wf(),
                self.cap() == old(self).cap(),
                j <= texts@.len(),
                models == texts@.map_values(|s: String| s@),
                extended_by(old(self)@, self@, old(self).cap(), tag, models.take(j as int)),
            decreases texts@.len() - j,
        {
            let ghost prev = self@;
            self.append_now(tag, texts[j].clone());
            proof {
                lemma_extended_step(
                    old(self)@,
                    prev,
                    old(self).cap(),
                    tag,
                    models.take(j as int),
                    self@.last(),
                );
                assert(models.take(j as int).push(models[j as int]) =~= models.take(j + 1));
            }
            j = j + 1;
        }
        proof {
            assert(models.take(texts@.len() as int) =~= models);
        }
    }

    /// A copy of the current contents, in arrival order.
    pub fn snapshot_logs(&self) -> (r: Vec<LogLine>)
        ensures
            r@.map_values(|l: LogLine| l@) == self@,
            r@.len() == self@.len(),
    {
        let mut r: Vec<LogLine> = Vec::new();
        let n = self.lines.len();
        let mut i: usize = 0;
        while i < n
            invariant
                n == self.lines@.len(),
                i <= n,
                r@.len() == i,
                forall|k: int| 0 <= k < i ==> r@[k] == self.lines@[k],
            decreases n - i,
        {
            r.push(self.lines[i].duplicate());
            i = i + 1;
        }
        proof {
            assert(r@.map_values(|l: LogLine| l@) =~= self@);
        }
        r
    }

    pub fn len(&self) -> (r: usize)
        ensures
            r == self@.len(),
    {
        self.lines.len()
    }
}

} // verus!
