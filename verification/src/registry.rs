//! The metrics registry: gauge families with labeled samples, and their
//! OpenMetrics text serialization.
//!
//! The registry is a plain value; sharing it between scrapes and guarding it
//! with a lock is the caller's business. Every mutation goes through
//! functions whose contracts say exactly which sample changed, and
//! [`Registry::render`] is proved to produce exactly the text that
//! [`spec_render_registry`] describes.

use vstd::prelude::*;

verus! {

/// One `name="value"` label on a sample.
#[derive(Clone, Debug)]
pub struct LabelPair {
    pub name: String,
    pub value: String,
}

/// One sample of a gauge family: a label set and the gauge's current value.
#[derive(Clone, Debug)]
pub struct Sample {
    pub labels: Vec<LabelPair>,
    pub value: u64,
}

/// A gauge family: a metric name, its help text, and its samples.
#[derive(Clone, Debug)]
pub struct MetricFamily {
    pub name: String,
    pub help: String,
    pub samples: Vec<Sample>,
}

/// The registry: every gauge family the process exposes, in exposition order.
#[derive(Clone, Debug)]
pub struct Registry {
    pub families: Vec<MetricFamily>,
}

/// Mathematical model of a label.
#[verifier::ext_equal]
pub struct LabelPairModel {
    pub name: Seq<char>,
    pub value: Seq<char>,
}

/// Mathematical model of a sample.
#[verifier::ext_equal]
pub struct SampleModel {
    pub labels: Seq<LabelPairModel>,
    pub value: u64,
}

/// Mathematical model of a gauge family.
#[verifier::ext_equal]
pub struct FamilyModel {
    pub name: Seq<char>,
    pub help: Seq<char>,
    pub samples: Seq<SampleModel>,
}

/// Mathematical model of the registry.
#[verifier::ext_equal]
pub struct RegistryModel {
    pub families: Seq<FamilyModel>,
}

impl View for LabelPair {
    type V = LabelPairModel;

    open spec fn view(&self) -> LabelPairModel {
        LabelPairModel { name: self.name@, value: self.value@ }
    }
}

impl View for Sample {
    type V = SampleModel;

    open spec fn view(&self) -> SampleModel {
        SampleModel { labels: self.labels@.map_values(|l: LabelPair| l@), value: self.value }
    }
}

impl View for MetricFamily {
    type V = FamilyModel;

    open spec fn view(&self) -> FamilyModel {
        FamilyModel {
            name: self.name@,
            help: self.help@,
            samples: self.samples@.map_values(|s: Sample| s@),
        }
    }
}

impl View for Registry {
    type V = RegistryModel;

    open spec fn view(&self) -> RegistryModel {
        RegistryModel { families: self.families@.map_values(|f: MetricFamily| f@) }
    }
}

/// The decimal digit character for `d` (meaningful for `d < 10`).
pub open spec fn dec_digit_char(d: nat) -> char {
    if d == 0 {
        '0'
    } else if d == 1 {
        '1'
    } else if d == 2 {
        '2'
    } else if d == 3 {
        '3'
    } else if d == 4 {
        '4'
    } else if d == 5 {
        '5'
    } else if d == 6 {
        '6'
    } else if d == 7 {
        '7'
    } else if d == 8 {
        '8'
    } else {
        '9'
    }
}

/// The decimal rendering of `n`, without leading zeros (just "0" for zero).
pub open spec fn spec_dec(n: nat) -> Seq<char>
    decreases n,
{
    if n < 10 {
        seq![dec_digit_char(n)]
    } else {
        spec_dec(n / 10).push(dec_digit_char(n % 10))
    }
}

/// The text of one label: `name="value"`.
pub open spec fn spec_render_label(l: LabelPairModel) -> Seq<char> {
    l.name + "=\""@ + l.value + "\""@
}

/// The comma-separated text of a label list.
pub open spec fn spec_render_label_list(ls: Seq<LabelPairModel>) -> Seq<char>
    decreases ls.len(),
{
    if ls.len() == 0 {
        Seq::empty()
    } else if ls.len() == 1 {
        spec_render_label(ls[0])
    } else {
        spec_render_label_list(ls.drop_last()) + ","@ + spec_render_label(ls.last())
    }
}

/// The text of a label set: empty when there are no labels, else braced.
pub open spec fn spec_render_label_set(ls: Seq<LabelPairModel>) -> Seq<char> {
    if ls.len() == 0 {
        Seq::empty()
    } else {
        "{"@ + spec_render_label_list(ls) + "}"@
    }
}

/// The exposition line of one sample of the family called `name`.
pub open spec fn spec_render_sample(name: Seq<char>, s: SampleModel) -> Seq<char> {
    name + spec_render_label_set(s.labels) + " "@ + spec_dec(s.value as nat) + "\n"@
}

/// The exposition lines of a family's samples, in order.
pub open spec fn spec_render_samples(name: Seq<char>, ss: Seq<SampleModel>) -> Seq<char>
    decreases ss.len(),
{
    if ss.len() == 0 {
        Seq::empty()
    } else {
        spec_render_samples(name, ss.drop_last()) + spec_render_sample(name, ss.last())
    }
}

/// The exposition block of one family: HELP and TYPE headers, then samples.
/// A full stop is appended to the help text.
pub open spec fn spec_render_family(f: FamilyModel) -> Seq<char> {
    "# HELP "@ + f.name + " "@ + f.help + ".\n"@ + "# TYPE "@ + f.name + " gauge\n"@
        + spec_render_samples(f.name, f.samples)
}

/// The exposition blocks of the families, in registry order.
pub open spec fn spec_render_families(fs: Seq<FamilyModel>) -> Seq<char>
    decreases fs.len(),
{
    if fs.len() == 0 {
        Seq::empty()
    } else {
        spec_render_families(fs.drop_last()) + spec_render_family(fs.last())
    }
}

/// The whole OpenMetrics text body: family blocks and the `# EOF` terminator.
pub open spec fn spec_render_registry(r: RegistryModel) -> Seq<char> {
    spec_render_families(r.families) + "# EOF\n"@
}

/// Appends the decimal digit character of `d` to `buf`.
fn push_dec_digit(d: u64, buf: &mut String)
    requires
        d < 10,
    ensures
        final(buf)@ == old(buf)@ + seq![dec_digit_char(d as nat)],
{
    let lit: &str = if d == 0 {
        "0"
    } else if d == 1 {
        "1"
    } else if d == 2 {
        "2"
    } else if d == 3 {
        "3"
    } else if d == 4 {
        "4"
    } else if d == 5 {
        "5"
    } else if d == 6 {
        "6"
    } else if d == 7 {
        "7"
    } else if d == 8 {
        "8"
    } else {
        "9"
    };
    proof {
        reveal_strlit("0");
        reveal_strlit("1");
        reveal_strlit("2");
        reveal_strlit("3");
        reveal_strlit("4");
        reveal_strlit("5");
        reveal_strlit("6");
        reveal_strlit("7");
        reveal_strlit("8");
        reveal_strlit("9");
        assert(lit@ =~= seq![dec_digit_char(d as nat)]);
    }
    buf.append(lit);
}

/// Appends the decimal rendering of `n` to `buf`.
pub fn push_dec(n: u64, buf: &mut String)
    ensures
        final(buf)@ == old(buf)@ + spec_dec(n as nat),
    decreases n,
{
    if n < 10 {
        push_dec_digit(n, buf);
    } else {
        push_dec(n / 10, buf);
        push_dec_digit(n % 10, buf);
    }
}

/// Appends one label's text to `buf`.
fn push_label(l: &LabelPair, buf: &mut String)
    ensures
        final(buf)@ == old(buf)@ + spec_render_label(l@),
{
    buf.append(l.name.as_str());
    buf.append("=\"");
    buf.append(l.value.as_str());
    buf.append("\"");
}

/// Appends a sample's label set to `buf`.
fn push_label_set(ls: &Vec<LabelPair>, buf: &mut String)
    ensures
        final(buf)@ == old(buf)@ + spec_render_label_set(ls@.map_values(|l: LabelPair| l@)),
{
    let ghost m = ls@.map_values(|l: LabelPair| l@);
    if ls.len() == 0 {
        proof {
            assert(old(buf)@ + spec_render_label_set(m) =~= old(buf)@);
        }
        return ;
    }
    buf.append("{");
    let ghost base = buf@;
    proof {
        assert(spec_render_label_list(m.take(0)) =~= Seq::<char>::empty());
        assert(buf@ =~= base + spec_render_label_list(m.take(0)));
    }
    let mut i: usize = 0;
    while i < ls.len()
        invariant
            0 < ls@.len(),
            i <= ls@.len(),
            m == ls@.map_values(|l: LabelPair| l@),
            base == old(buf)@ + "{"@,
            buf@ == base + spec_render_label_list(m.take(i as int)),
        decreases ls@.len() - i,
    {
        if i > 0 {
            buf.append(",");
        }
        push_label(&ls[i], buf);
        proof {
            assert(m.take(i + 1).drop_last() =~= m.take(i as int));
            assert(m.take(i + 1).last() == m[i as int]);
            assert(m[i as int] == ls@[i as int]@);
            if i == 0 {
                assert(spec_render_label_list(m.take(1)) =~= spec_render_label(m[0]));
                assert(buf@ =~= base + spec_render_label_list(m.take(1)));
            } else {
                assert(buf@ =~= base + spec_render_label_list(m.take(i + 1)));
            }
        }
        i = i + 1;
    }
    buf.append("}");
    proof {
        assert(m.take(m.len() as int) =~= m);
        assert(buf@ =~= old(buf)@ + spec_render_label_set(m));
    }
}

/// Appends one sample's exposition line to `buf`.
fn push_sample(name: &String, s: &Sample, buf: &mut String)
    ensures
        final(buf)@ == old(buf)@ + spec_render_sample(name@, s@),
{
    buf.append(name.as_str());
    push_label_set(&s.labels, buf);
    buf.append(" ");
    push_dec(s.value, buf);
    buf.append("\n");
    proof {
        assert(buf@ =~= old(buf)@ + spec_render_sample(name@, s@));
    }
}

/// Appends one family's exposition block to `buf`.
fn push_family(f: &MetricFamily, buf: &mut String)
    ensures
        final(buf)@ == old(buf)@ + spec_render_family(f@),
{
    let ghost header = "# HELP "@ + f@.name + " "@ + f@.help + ".\n"@ + "# TYPE "@ + f@.name
        + " gauge\n"@;
    buf.append("# HELP ");
    buf.append(f.name.as_str());
    buf.append(" ");
    buf.append(f.help.as_str());
    buf.append(".\n");
    buf.append("# TYPE ");
    buf.append(f.name.as_str());
    buf.append(" gauge\n");
    proof {
        assert(buf@ =~= old(buf)@ + header);
    }
    let ghost base = buf@;
    let ghost m = f.samples@.map_values(|s: Sample| s@);
    proof {
        assert(spec_render_samples(f@.name, m.take(0)) =~= Seq::<char>::empty());
        assert(buf@ =~= base + spec_render_samples(f@.name, m.take(0)));
    }
    let mut i: usize = 0;
    while i < f.samples.len()
        invariant
            i <= f.samples@.len(),
            m == f.samples@.map_values(|s: Sample| s@),
            base == old(buf)@ + ("# HELP "@ + f@.name + " "@ + f@.help + ".\n"@ + "# TYPE "@
                + f@.name + " gauge\n"@),
            buf@ == base + spec_render_samples(f@.name, m.take(i as int)),
        decreases f.samples@.len() - i,
    {
        push_sample(&f.name, &f.samples[i], buf);
        proof {
            assert(m.take(i + 1).drop_last() =~= m.take(i as int));
            assert(m.take(i + 1).last() == m[i as int]);
            assert(buf@ =~= base + spec_render_samples(f@.name, m.take(i + 1)));
        }
        i = i + 1;
    }
    proof {
        assert(m.take(m.len() as int) =~= m);
        assert(buf@ =~= old(buf)@ + spec_render_family(f@));
    }
}

impl Registry {
    /// A registry with no families.
    pub fn new() -> (r: Registry)
        ensures
            r@.families == Seq::<FamilyModel>::empty(),
    {
        let r = Registry { families: Vec::new() };
        proof {
            assert(r@.families =~= Seq::<FamilyModel>::empty());
        }
        r
    }

    /// Serializes the registry to OpenMetrics text.
    pub fn render(&self) -> (r: String)
        ensures
            r@ == spec_render_registry(self@),
    {
        let mut buf = String::new();
        let ghost m = self.families@.map_values(|f: MetricFamily| f@);
        proof {
            assert(spec_render_families(m.take(0)) =~= Seq::<char>::empty());
            assert(buf@ =~= spec_render_families(m.take(0)));
        }
        let mut i: usize = 0;
        while i < self.families.len()
            invariant
                i <= self.families@.len(),
                m == self.families@.map_values(|f: MetricFamily| f@),
                buf@ == spec_render_families(m.take(i as int)),
            decreases self.families@.len() - i,
        {
            push_family(&self.families[i], &mut buf);
            proof {
                assert(m.take(i + 1).drop_last() =~= m.take(i as int));
                assert(m.take(i + 1).last() == m[i as int]);
                assert(buf@ =~= spec_render_families(m.take(i + 1)));
            }
            i = i + 1;
        }
        buf.append("# EOF\n");
        proof {
            assert(m.take(m.len() as int) =~= m);
            assert(buf@ =~= spec_render_registry(self@));
        }
        buf
    }
}

} // verus!
