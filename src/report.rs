//! The plain-text report that holds the hardware and network facts.

use vstd::prelude::*;

verus! {

/// One line per fact: three spaces, the key, the value, a newline.
pub open spec fn fact_lines(facts: Seq<(String, String)>) -> Seq<char>
    decreases facts.len(),
{
    if facts.len() == 0 {
        Seq::empty()
    } else {
        fact_lines(facts.drop_last()) + "   "@ + facts.last().0@ + facts.last().1@ + "\n"@
    }
}

/// The whole report: the hardware header and facts, then a blank line, the
/// network header and facts.
pub open spec fn report_text(
    hardware_info: Seq<(String, String)>,
    network_info: Seq<(String, String)>,
) -> Seq<char> {
    "### Hardware/Software information\n"@ + fact_lines(hardware_info)
        + "\n### Network information\n"@ + fact_lines(network_info)
}

/// The line of one fact, without its newline.
pub open spec fn fact_line(fact: (String, String)) -> Seq<char> {
    "   "@ + fact.0@ + fact.1@
}

/// Lines joined into text, each followed by a newline.
pub open spec fn joined(lines: Seq<Seq<char>>) -> Seq<char>
    decreases lines.len(),
{
    if lines.len() == 0 {
        Seq::empty()
    } else {
        joined(lines.drop_last()) + lines.last() + "\n"@
    }
}

/// The report's lines, in order: the hardware header, one line per hardware
/// fact, a blank line, the network header, one line per network fact.
pub open spec fn report_lines(
    hardware_info: Seq<(String, String)>,
    network_info: Seq<(String, String)>,
) -> Seq<Seq<char>> {
    seq!["### Hardware/Software information"@] + hardware_info.map_values(|f| fact_line(f)) + seq![
        Seq::<char>::empty(),
        "### Network information"@,
    ] + network_info.map_values(|f| fact_line(f))
}

proof fn lemma_joined_append(a: Seq<Seq<char>>, b: Seq<Seq<char>>)
    ensures
        joined(a + b) == joined(a) + joined(b),
    decreases b.len(),
{
    if b.len() == 0 {
        assert(a + b =~= a);
        assert(joined(b) =~= Seq::<char>::empty());
        assert(joined(a) + joined(b) =~= joined(a));
    } else {
        assert((a + b).drop_last() =~= a + b.drop_last());
        lemma_joined_append(a, b.drop_last());
        assert(joined(a) + joined(b) =~= joined(a) + joined(b.drop_last()) + b.last() + "\n"@);
    }
}

proof fn lemma_fact_lines_joined(facts: Seq<(String, String)>)
    ensures
        fact_lines(facts) == joined(facts.map_values(|f| fact_line(f))),
    decreases facts.len(),
{
    let m = facts.map_values(|f| fact_line(f));
    if facts.len() == 0 {
        assert(m.len() == 0);
    } else {
        lemma_fact_lines_joined(facts.drop_last());
        assert(m.drop_last() =~= facts.drop_last().map_values(|f| fact_line(f)));
        assert(m.last() == fact_line(facts.last()));
        assert(fact_lines(facts) =~= joined(m));
    }
}

/// The report is its lines joined, each ended by a newline; and where no key
/// or value holds a newline, no line does, so the newlines split the report
/// into exactly these lines.
pub proof fn lemma_report_line_layout(
    hardware_info: Seq<(String, String)>,
    network_info: Seq<(String, String)>,
)
    ensures
        report_text(hardware_info, network_info) == joined(
            report_lines(hardware_info, network_info),
        ),
        (forall|i: int|
            0 <= i < hardware_info.len() ==> !(#[trigger] hardware_info[i]).0@.contains('\n')
                && !hardware_info[i].1@.contains('\n')) && (forall|i: int|
            0 <= i < network_info.len() ==> !(#[trigger] network_info[i]).0@.contains('\n')
                && !network_info[i].1@.contains('\n')) ==> forall|k: int|
            0 <= k < report_lines(hardware_info, network_info).len() ==> !(#[trigger] report_lines(
                hardware_info,
                network_info,
            )[k]).contains('\n'),
{
    let h = hardware_info.map_values(|f| fact_line(f));
    let n = network_info.map_values(|f| fact_line(f));
    let head = seq!["### Hardware/Software information"@];
    let mid = seq![Seq::<char>::empty(), "### Network information"@];
    lemma_fact_lines_joined(hardware_info);
    lemma_fact_lines_joined(network_info);
    lemma_joined_append(head + h + mid, n);
    lemma_joined_append(head + h, mid);
    lemma_joined_append(head, h);
    reveal_strlit("### Hardware/Software information\n");
    reveal_strlit("### Hardware/Software information");
    reveal_strlit("\n### Network information\n");
    reveal_strlit("### Network information");
    reveal_strlit("\n");
    reveal_strlit("   ");
    assert(joined(Seq::<Seq<char>>::empty()) == Seq::<char>::empty());
    assert(joined(head) =~= "### Hardware/Software information\n"@) by {
        assert(head.drop_last() =~= Seq::<Seq<char>>::empty());
        assert(joined(head) == joined(head.drop_last()) + head.last() + "\n"@);
        assert(joined(head) =~= "### Hardware/Software information"@ + "\n"@);
    }
    assert(joined(mid) =~= "\n### Network information\n"@) by {
        let first = mid.drop_last();
        assert(first.drop_last() =~= Seq::<Seq<char>>::empty());
        assert(first =~= seq![Seq::<char>::empty()]);
        assert(joined(first) == joined(first.drop_last()) + first.last() + "\n"@);
        assert(joined(first) =~= "\n"@);
        assert(joined(mid) == joined(first) + mid.last() + "\n"@);
        assert(joined(mid) =~= "\n"@ + "### Network information"@ + "\n"@);
    }
    assert(report_lines(hardware_info, network_info) =~= head + h + mid + n);
    assert(report_text(hardware_info, network_info) =~= joined(head) + joined(h) + joined(mid)
        + joined(n));
    let lines = report_lines(hardware_info, network_info);
    if (forall|i: int|
        0 <= i < hardware_info.len() ==> !(#[trigger] hardware_info[i]).0@.contains('\n')
            && !hardware_info[i].1@.contains('\n')) && (forall|i: int|
        0 <= i < network_info.len() ==> !(#[trigger] network_info[i]).0@.contains('\n')
            && !network_info[i].1@.contains('\n')) {
        assert forall|k: int| 0 <= k < lines.len() implies !(#[trigger] lines[k]).contains('\n') by {
            let hl = hardware_info.len() as int;
            if k == 0 {
                assert(lines[k] == "### Hardware/Software information"@);
            } else if k <= hl {
                let f = hardware_info[k - 1];
                assert(lines[k] == fact_line(f));
                if lines[k].contains('\n') {
                    let p = choose|p: int| 0 <= p < lines[k].len() && lines[k][p] == '\n';
                    if p < 3 {
                    } else if p < 3 + f.0@.len() {
                        assert(f.0@[p - 3] == '\n');
                    } else {
                        assert(f.1@[p - 3 - f.0@.len()] == '\n');
                    }
                }
            } else if k == hl + 1 {
                assert(lines[k] == Seq::<char>::empty());
            } else if k == hl + 2 {
                assert(lines[k] == "### Network information"@);
            } else {
                let f = network_info[k - hl - 3];
                assert(lines[k] == fact_line(f));
                if lines[k].contains('\n') {
                    let p = choose|p: int| 0 <= p < lines[k].len() && lines[k][p] == '\n';
                    if p < 3 {
                    } else if p < 3 + f.0@.len() {
                        assert(f.0@[p - 3] == '\n');
                    } else {
                        assert(f.1@[p - 3 - f.0@.len()] == '\n');
                    }
                }
            }
        }
    }
}

/// Appends one line per fact to `buf`.
fn push_fact_lines(buf: &mut String, facts: &Vec<(String, String)>)
    ensures
        final(buf)@ == old(buf)@ + fact_lines(facts@),
{
    let mut i: usize = 0;
    while i < facts.len()
        invariant
            i <= facts@.len(),
            buf@ == old(buf)@ + fact_lines(facts@.subrange(0, i as int)),
        decreases facts.len() - i,
    {
        let fact = &facts[i];
        buf.append("   ");
        buf.append(fact.0.as_str());
        buf.append(fact.1.as_str());
        buf.append("\n");
        proof {
            let next = facts@.subrange(0, i as int + 1);
            assert(next.drop_last() =~= facts@.subrange(0, i as int));
            assert(next.last() == facts@[i as int]);
        }
        i = i + 1;
    }
    proof {
        assert(facts@.subrange(0, i as int) =~= facts@);
    }
}

/// Formats both fact lists as one report. Note the order of the arguments:
/// network facts first, though the hardware section comes first in the text.
pub fn button_copy(network_info: Vec<(String, String)>, hardware_info: Vec<(String, String)>) -> (r:
    String)
    ensures
        r@ == report_text(hardware_info@, network_info@),
        r@.subrange(0, 34) == "### Hardware/Software information\n"@,
{
    let mut buf = String::from_str("### Hardware/Software information\n");
    push_fact_lines(&mut buf, &hardware_info);
    buf.append("\n### Network information\n");
    push_fact_lines(&mut buf, &network_info);
    proof {
        reveal_strlit("### Hardware/Software information\n");
    }
    buf
}

} // verus!
