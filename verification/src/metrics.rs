//! The Prometheus text the management service answers on its metrics routes.
use vstd::prelude::*;
use vstd::string::*;

use crate::text::contains_seq;
use crate::text::decimal;
use crate::text::occurs_at;
use crate::text::push_decimal;

verus! {

/// One gauge in the Prometheus text format: its help line, its type line and
/// its sample line, each ending with a newline.
pub open spec fn gauge_block(prefix: Seq<char>, name: Seq<char>, help: Seq<char>, value: nat) -> Seq<
    char,
> {
    "# HELP "@ + prefix + name + " "@ + help + "\n# TYPE "@ + prefix + name + " gauge\n"@ + prefix
        + name + " "@ + decimal(value) + "\n"@
}

/// The metrics of the management service, each gauge name starting with `prefix`.
pub open spec fn spec_management_metrics(
    prefix: Seq<char>,
    slots_processing: nat,
    slots_total: nat,
    requests_buffered: nat,
) -> Seq<char> {
    gauge_block(prefix, "slots_processing"@, "Number of processing slots"@, slots_processing)
        + "\n"@ + gauge_block(prefix, "slots_total"@, "Number of total slots"@, slots_total) + "\n"@
        + gauge_block(
        prefix,
        "requests_buffered"@,
        "Number of buffered requests"@,
        requests_buffered,
    )
}

/// The metrics of the agents API, with gauge names starting with `paddler_`.
pub open spec fn spec_agents_metrics(
    slots_idle: nat,
    slots_processing: nat,
    requests_buffered: nat,
) -> Seq<char> {
    gauge_block("paddler_"@, "slots_idle"@, "Number of idle slots"@, slots_idle) + "\n"@
        + gauge_block("paddler_"@, "slots_processing"@, "Number of processing slots"@, slots_processing)
        + "\n"@ + gauge_block(
        "paddler_"@,
        "requests_buffered"@,
        "Number of buffered requests"@,
        requests_buffered,
    )
}

/// The type line of the gauge `prefix + name`.
pub open spec fn type_line(prefix: Seq<char>, name: Seq<char>) -> Seq<char> {
    "# TYPE "@ + prefix + name + " gauge\n"@
}

/// The sample line of the gauge `prefix + name` with `value`, with the line
/// break before it.
pub open spec fn sample_line(prefix: Seq<char>, name: Seq<char>, value: nat) -> Seq<char> {
    "\n"@ + prefix + name + " "@ + decimal(value) + "\n"@
}

/// `x` occurs in `a + x + c`.
proof fn lemma_occurs_between(a: Seq<char>, x: Seq<char>, c: Seq<char>)
    ensures
        contains_seq(a + x + c, x),
{
    assert((a + x + c).subrange(a.len() as int, (a.len() + x.len()) as int) =~= x);
    assert(occurs_at(a + x + c, x, a.len() as int));
}

/// A gauge block holds the gauge's type line and its sample line.
proof fn lemma_gauge_lines(
    before: Seq<char>,
    prefix: Seq<char>,
    name: Seq<char>,
    help: Seq<char>,
    value: nat,
    after: Seq<char>,
)
    ensures
        contains_seq(before + gauge_block(prefix, name, help, value) + after, type_line(prefix, name)),
        contains_seq(
            before + gauge_block(prefix, name, help, value) + after,
            sample_line(prefix, name, value),
        ),
{
    reveal_strlit("\n# TYPE ");
    reveal_strlit("# TYPE ");
    reveal_strlit("\n");
    reveal_strlit(" gauge\n");
    reveal_strlit(" gauge");
    let text = before + gauge_block(prefix, name, help, value) + after;
    let head = before + "# HELP "@ + prefix + name + " "@ + help + "\n"@;
    let tail = prefix + name + " "@ + decimal(value) + "\n"@ + after;
    assert(text =~= head + type_line(prefix, name) + tail);
    lemma_occurs_between(head, type_line(prefix, name), tail);
    let head2 = before + "# HELP "@ + prefix + name + " "@ + help + "\n# TYPE "@ + prefix + name
        + " gauge"@;
    assert(text =~= head2 + sample_line(prefix, name, value) + after);
    lemma_occurs_between(head2, sample_line(prefix, name, value), after);
}

/// Every gauge of the management service is named with the configured
/// prefix: the text starts with the help line of `prefix` + `slots_processing`,
/// and holds the type line and the sample line, with its value, of
/// `prefix` + `slots_processing`, `prefix` + `slots_total` and `prefix` +
/// `requests_buffered`.
pub proof fn law_management_gauges_named_with_prefix(
    prefix: Seq<char>,
    slots_processing: nat,
    slots_total: nat,
    requests_buffered: nat,
)
    ensures
        ({
            let text = spec_management_metrics(
                prefix,
                slots_processing,
                slots_total,
                requests_buffered,
            );
            &&& text.take(("# HELP "@ + prefix + "slots_processing"@).len() as int) == "# HELP "@
                + prefix + "slots_processing"@
            &&& contains_seq(text, type_line(prefix, "slots_processing"@))
            &&& contains_seq(text, sample_line(prefix, "slots_processing"@, slots_processing))
            &&& contains_seq(text, type_line(prefix, "slots_total"@))
            &&& contains_seq(text, sample_line(prefix, "slots_total"@, slots_total))
            &&& contains_seq(text, type_line(prefix, "requests_buffered"@))
            &&& contains_seq(text, sample_line(prefix, "requests_buffered"@, requests_buffered))
        }),
{
    let g1 = gauge_block(prefix, "slots_processing"@, "Number of processing slots"@, slots_processing);
    let g2 = gauge_block(prefix, "slots_total"@, "Number of total slots"@, slots_total);
    let g3 = gauge_block(
        prefix,
        "requests_buffered"@,
        "Number of buffered requests"@,
        requests_buffered,
    );
    let text = spec_management_metrics(prefix, slots_processing, slots_total, requests_buffered);
    let e = Seq::<char>::empty();
    assert(text =~= e + g1 + ("\n"@ + g2 + "\n"@ + g3));
    lemma_gauge_lines(
        e,
        prefix,
        "slots_processing"@,
        "Number of processing slots"@,
        slots_processing,
        "\n"@ + g2 + "\n"@ + g3,
    );
    assert(text =~= (g1 + "\n"@) + g2 + ("\n"@ + g3));
    lemma_gauge_lines(
        g1 + "\n"@,
        prefix,
        "slots_total"@,
        "Number of total slots"@,
        slots_total,
        "\n"@ + g3,
    );
    assert(text =~= (g1 + "\n"@ + g2 + "\n"@) + g3 + e);
    lemma_gauge_lines(
        g1 + "\n"@ + g2 + "\n"@,
        prefix,
        "requests_buffered"@,
        "Number of buffered requests"@,
        requests_buffered,
        e,
    );
    let h = "# HELP "@ + prefix + "slots_processing"@;
    assert(text =~= h + (text.subrange(h.len() as int, text.len() as int)));
    assert(text.take(h.len() as int) =~= h);
}

/// The agents API reports its gauges under the fixed `paddler_` prefix: the
/// type line and the sample line, with its value, of `paddler_slots_idle`,
/// `paddler_slots_processing` and `paddler_requests_buffered`.
pub proof fn law_agents_gauges_named_with_paddler_prefix(
    slots_idle: nat,
    slots_processing: nat,
    requests_buffered: nat,
)
    ensures
        ({
            let text = spec_agents_metrics(slots_idle, slots_processing, requests_buffered);
            let prefix = "paddler_"@;
            &&& contains_seq(text, type_line(prefix, "slots_idle"@))
            &&& contains_seq(text, sample_line(prefix, "slots_idle"@, slots_idle))
            &&& contains_seq(text, type_line(prefix, "slots_processing"@))
            &&& contains_seq(text, sample_line(prefix, "slots_processing"@, slots_processing))
            &&& contains_seq(text, type_line(prefix, "requests_buffered"@))
            &&& contains_seq(text, sample_line(prefix, "requests_buffered"@, requests_buffered))
        }),
{
    let prefix = "paddler_"@;
    let g1 = gauge_block(prefix, "slots_idle"@, "Number of idle slots"@, slots_idle);
    let g2 = gauge_block(prefix, "slots_processing"@, "Number of processing slots"@, slots_processing);
    let g3 = gauge_block(
        prefix,
        "requests_buffered"@,
        "Number of buffered requests"@,
        requests_buffered,
    );
    let text = spec_agents_metrics(slots_idle, slots_processing, requests_buffered);
    let e = Seq::<char>::empty();
    assert(text =~= e + g1 + ("\n"@ + g2 + "\n"@ + g3));
    lemma_gauge_lines(e, prefix, "slots_idle"@, "Number of idle slots"@, slots_idle, "\n"@ + g2 + "\n"@ + g3);
    assert(text =~= (g1 + "\n"@) + g2 + ("\n"@ + g3));
    lemma_gauge_lines(
        g1 + "\n"@,
        prefix,
        "slots_processing"@,
        "Number of processing slots"@,
        slots_processing,
        "\n"@ + g3,
    );
    assert(text =~= (g1 + "\n"@ + g2 + "\n"@) + g3 + e);
    lemma_gauge_lines(
        g1 + "\n"@ + g2 + "\n"@,
        prefix,
        "requests_buffered"@,
        "Number of buffered requests"@,
        requests_buffered,
        e,
    );
}

/// Appends one gauge to `out`.
fn push_gauge(out: &mut String, prefix: &str, name: &str, help: &str, value: usize)
    ensures
        final(out)@ == old(out)@ + gauge_block(prefix@, name@, help@, value as nat),
{
    out.append("# HELP ");
    out.append(prefix);
    out.append(name);
    out.append(" ");
    out.append(help);
    out.append("\n# TYPE ");
    out.append(prefix);
    out.append(name);
    out.append(" gauge\n");
    out.append(prefix);
    out.append(name);
    out.append(" ");
    push_decimal(out, value);
    out.append("\n");
    assert(final(out)@ =~= old(out)@ + gauge_block(prefix@, name@, help@, value as nat));
}

/// The text of the management service's `/metrics` route.
pub fn management_metrics(
    statsd_prefix: &str,
    slots_processing: usize,
    slots_total: usize,
    requests_buffered: usize,
) -> (res: String)
    ensures
        res@ == spec_management_metrics(
            statsd_prefix@,
            slots_processing as nat,
            slots_total as nat,
            requests_buffered as nat,
        ),
{
    let mut out = String::new();
    push_gauge(
        &mut out,
        statsd_prefix,
        "slots_processing",
        "Number of processing slots",
        slots_processing,
    );
    out.append("\n");
    push_gauge(&mut out, statsd_prefix, "slots_total", "Number of total slots", slots_total);
    out.append("\n");
    push_gauge(
        &mut out,
        statsd_prefix,
        "requests_buffered",
        "Number of buffered requests",
        requests_buffered,
    );
    assert(out@ =~= spec_management_metrics(
        statsd_prefix@,
        slots_processing as nat,
        slots_total as nat,
        requests_buffered as nat,
    ));
    out
}

/// The text of the agents API's `/api/v1/metrics` route.
pub fn agents_metrics(slots_idle: usize, slots_processing: usize, requests_buffered: usize) -> (res:
    String)
    ensures
        res@ == spec_agents_metrics(
            slots_idle as nat,
            slots_processing as nat,
            requests_buffered as nat,
        ),
{
    let mut out = String::new();
    push_gauge(&mut out, "paddler_", "slots_idle", "Number of idle slots", slots_idle);
    out.append("\n");
    push_gauge(
        &mut out,
        "paddler_",
        "slots_processing",
        "Number of processing slots",
        slots_processing,
    );
    out.append("\n");
    push_gauge(
        &mut out,
        "paddler_",
        "requests_buffered",
        "Number of buffered requests",
        requests_buffered,
    );
    assert(out@ =~= spec_agents_metrics(
        slots_idle as nat,
        slots_processing as nat,
        requests_buffered as nat,
    ));
    out
}

} // verus!
