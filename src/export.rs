//! The text snapshot of the registry: per-metric `# HELP` / `# TYPE`
//! headers followed by `name value` or `name{le=Ns} value` lines.
use vstd::prelude::*;
use vstd::string::StringExecFns;
use crate::stats::{combine, Aggregate, ClientMetrics, BUCKETS};

verus! {

/// `2^i`.
pub open spec fn two_to(i: nat) -> nat
    decreases i,
{
    if i == 0 {
        1
    } else {
        2 * two_to((i - 1) as nat)
    }
}

/// The decimal digit of `n < 10`.
pub open spec fn digit(n: nat) -> char {
    if n == 0 {
        '0'
    } else if n == 1 {
        '1'
    } else if n == 2 {
        '2'
    } else if n == 3 {
        '3'
    } else if n == 4 {
        '4'
    } else if n == 5 {
        '5'
    } else if n == 6 {
        '6'
    } else if n == 7 {
        '7'
    } else if n == 8 {
        '8'
    } else {
        '9'
    }
}

/// `n` in decimal, without leading zeros.
pub open spec fn dec(n: nat) -> Seq<char>
    decreases n,
{
    if n < 10 {
        seq![digit(n)]
    } else {
        dec(n / 10) + seq![digit(n % 10)]
    }
}

/// The two header lines of a metric.
pub open spec fn header(name: Seq<char>, kind: Seq<char>, help: Seq<char>) -> Seq<char> {
    "# HELP "@ + name + " "@ + help + "\n"@ + "# TYPE "@ + name + " "@ + kind + "\n"@
}

/// A metric with one value, followed by a blank line.
pub open spec fn metric(name: Seq<char>, kind: Seq<char>, help: Seq<char>, value: nat) -> Seq<char> {
    header(name, kind, help) + name + " "@ + dec(value) + "\n\n"@
}

/// Line `i` of a histogram; its label is `2^i - 1` seconds.
pub open spec fn bucket_line(name: Seq<char>, i: nat, value: nat) -> Seq<char> {
    name + "{le="@ + dec((two_to(i) - 1) as nat) + "s} "@ + dec(value) + "\n"@
}

/// The first `n` lines of a histogram.
pub open spec fn bucket_lines(name: Seq<char>, hist: Seq<u64>, n: nat) -> Seq<char>
    decreases n,
{
    if n == 0 {
        Seq::empty()
    } else {
        bucket_lines(name, hist, (n - 1) as nat) + bucket_line(
            name,
            (n - 1) as nat,
            hist[n - 1] as nat,
        )
    }
}

/// The metrics of one population of connections, with names that start with
/// `prefix`; `by` and `of` end the descriptions.
pub open spec fn population(prefix: Seq<char>, by: Seq<char>, of: Seq<char>, a: Aggregate) -> Seq<
    char,
> {
    metric(
        prefix + "_maximum_connection_time_seconds"@,
        "counter"@,
        "Length in seconds of longest connection "@ + by,
        a.maximum_connection_time as nat,
    ) + metric(
        prefix + "_minimum_connection_time_seconds"@,
        "counter"@,
        "Length in seconds of shortest connection "@ + by,
        a.minimum_connection_time as nat,
    ) + metric(
        prefix + "_sent_chunks_sum"@,
        "counter"@,
        "Sum of sent chunks "@ + by,
        a.sent_chunks_sum as nat,
    ) + metric(
        prefix + "_sent_eastereggs_sum"@,
        "counter"@,
        "Sum of sent sent_eastereggs "@ + by,
        a.sent_eastereggs_sum as nat,
    ) + metric(
        prefix + "_sent_banners_sum"@,
        "counter"@,
        "Sum of sent banners "@ + by,
        a.sent_banners_sum as nat,
    ) + metric(
        prefix + "_connection_time_seconds_sum"@,
        "counter"@,
        "Sum of connection time "@ + of,
        a.connection_time as nat,
    ) + header(
        prefix + "_connection_time_seconds_bucket"@,
        "histogram"@,
        "A histogram of the connection time "@ + of,
    ) + bucket_lines(prefix + "_connection_time_seconds_bucket"@, a.connection_time_till, BUCKETS as nat)
}

/// The whole snapshot: uptime, the two connection counters, then the open
/// connections, the closed ones, and both together.
pub open spec fn export_text(
    uptime: nat,
    count: nat,
    total: nat,
    live: Aggregate,
    former: Aggregate,
) -> Seq<char> {
    metric("uptime_seconds"@, "gauge"@, "Number of seconds since startup."@, uptime) + metric(
        "connections_count"@,
        "counter"@,
        "Number of current connections."@,
        count,
    ) + metric("connections_total"@, "counter"@, "Total number of connections."@, total)
        + population("client"@, "by current clients."@, "of current clients."@, live) + "\n"@
        + population("former"@, "by former clients."@, "of former clients."@, former) + "\n"@
        + population("total"@, "overall."@, "overall."@, combine(live, former))
}

fn put(out: &mut String, s: &str)
    ensures
        final(out)@ == old(out)@ + s@,
{
    out.append(s);
}

/// The digit of `n < 10` as text.
fn digit_str(n: u64) -> (r: &'static str)
    requires
        n < 10,
    ensures
        r@ == seq![digit(n as nat)],
{
    proof {
        reveal_strlit("0");
        reveal_strlit("1");
        reveal_strlit("2");
        reveal_strlit("3");
        reveal_strlit("4");
        reveal_strlit("5");
        reveal_strlit("6");
        reveal_strlit("7");
        reveal_strlit("8");
        reveal_strlit("9");
    }
    if n == 0 {
        "0"
    } else if n == 1 {
        "1"
    } else if n == 2 {
        "2"
    } else if n == 3 {
        "3"
    } else if n == 4 {
        "4"
    } else if n == 5 {
        "5"
    } else if n == 6 {
        "6"
    } else if n == 7 {
        "7"
    } else if n == 8 {
        "8"
    } else {
        assert(seq!['9'] =~= "9"@);
        "9"
    }
}

/// Appends `n` in decimal.
fn write_dec(out: &mut String, n: u64)
    ensures
        final(out)@ == old(out)@ + dec(n as nat),
    decreases n,
{
    if n >= 10 {
        write_dec(out, n / 10);
    }
    put(out, digit_str(n % 10));
    assert(out@ =~= old(out)@ + dec(n as nat));
}

/// Appends the two header lines of the metric named `prefix` + `suffix`.
fn write_header(out: &mut String, prefix: &str, suffix: &str, kind: &str, help_a: &str, help_b: &str)
    ensures
        final(out)@ == old(out)@ + header(prefix@ + suffix@, kind@, help_a@ + help_b@),
{
    put(out, "# HELP ");
    put(out, prefix);
    put(out, suffix);
    put(out, " ");
    put(out, help_a);
    put(out, help_b);
    put(out, "\n");
    put(out, "# TYPE ");
    put(out, prefix);
    put(out, suffix);
    put(out, " ");
    put(out, kind);
    put(out, "\n");
    assert(out@ =~= old(out)@ + header(prefix@ + suffix@, kind@, help_a@ + help_b@));
}

/// Appends a metric with one value.
fn write_metric(
    out: &mut String,
    prefix: &str,
    suffix: &str,
    kind: &str,
    help_a: &str,
    help_b: &str,
    value: u64,
)
    ensures
        final(out)@ == old(out)@ + metric(prefix@ + suffix@, kind@, help_a@ + help_b@, value as nat),
{
    write_header(out, prefix, suffix, kind, help_a, help_b);
    put(out, prefix);
    put(out, suffix);
    put(out, " ");
    write_dec(out, value);
    put(out, "\n\n");
    assert(out@ =~= old(out)@ + metric(prefix@ + suffix@, kind@, help_a@ + help_b@, value as nat));
}

proof fn lemma_two_to_le(i: nat, j: nat)
    requires
        i <= j,
    ensures
        two_to(i) <= two_to(j),
    decreases j - i,
{
    if i < j {
        lemma_two_to_le(i, (j - 1) as nat);
    }
}

/// Appends the lines of histogram `hist` named `prefix` + `suffix`.
fn write_buckets(out: &mut String, prefix: &str, suffix: &str, hist: &[u64; 32])
    ensures
        final(out)@ == old(out)@ + bucket_lines(prefix@ + suffix@, hist@, BUCKETS as nat),
{
    let ghost name = prefix@ + suffix@;
    let mut i: usize = 0;
    let mut p: u64 = 1;
    proof {
        reveal_with_fuel(two_to, 33);
    }
    assert(two_to(32) == 0x1_0000_0000);
    while i < BUCKETS
        invariant
            i <= BUCKETS,
            p as nat == two_to(i as nat),
            two_to(32) == 0x1_0000_0000,
            name == prefix@ + suffix@,
            out@ == old(out)@ + bucket_lines(name, hist@, i as nat),
        decreases BUCKETS - i,
    {
        let ghost before = out@;
        proof {
            lemma_two_to_le((i + 1) as nat, 32);
            lemma_two_to_le(0, i as nat);
            assert(two_to((i + 1) as nat) == 2 * two_to(i as nat));
        }
        put(out, prefix);
        put(out, suffix);
        put(out, "{le=");
        write_dec(out, p - 1);
        put(out, "s} ");
        write_dec(out, hist[i]);
        put(out, "\n");
        assert(out@ =~= before + bucket_line(name, i as nat, hist@[i as int] as nat));
        assert(bucket_lines(name, hist@, (i + 1) as nat) == bucket_lines(name, hist@, i as nat)
            + bucket_line(name, i as nat, hist@[i as int] as nat));
        assert(out@ =~= old(out)@ + bucket_lines(name, hist@, (i + 1) as nat));
        p = p * 2;
        i = i + 1;
    }
}

/// Appends the metrics of one population.
fn write_population(out: &mut String, prefix: &str, by: &str, of: &str, a: &ClientMetrics)
    ensures
        final(out)@ == old(out)@ + population(prefix@, by@, of@, a@),
{
    let ghost s0 = out@;
    write_metric(
        out,
        prefix,
        "_maximum_connection_time_seconds",
        "counter",
        "Length in seconds of longest connection ",
        by,
        a.maximum_connection_time,
    );
    write_metric(
        out,
        prefix,
        "_minimum_connection_time_seconds",
        "counter",
        "Length in seconds of shortest connection ",
        by,
        a.minimum_connection_time,
    );
    write_metric(out, prefix, "_sent_chunks_sum", "counter", "Sum of sent chunks ", by, a.sent_chunks_sum);
    write_metric(
        out,
        prefix,
        "_sent_eastereggs_sum",
        "counter",
        "Sum of sent sent_eastereggs ",
        by,
        a.sent_eastereggs_sum,
    );
    write_metric(out, prefix, "_sent_banners_sum", "counter", "Sum of sent banners ", by, a.sent_banners_sum);
    write_metric(
        out,
        prefix,
        "_connection_time_seconds_sum",
        "counter",
        "Sum of connection time ",
        of,
        a.connection_time,
    );
    write_header(
        out,
        prefix,
        "_connection_time_seconds_bucket",
        "histogram",
        "A histogram of the connection time ",
        of,
    );
    write_buckets(out, prefix, "_connection_time_seconds_bucket", &a.connection_time_till);
    assert(out@ =~= s0 + population(prefix@, by@, of@, a@));
}

/// The snapshot text for an uptime of `uptime` seconds, the two connection
/// counters, the totals `live` of the open connections and `former` of the
/// closed ones.
pub fn render(uptime: u64, count: usize, total: usize, live: &ClientMetrics, former: &ClientMetrics) -> (r: String)
    ensures
        r@ == export_text(uptime as nat, count as nat, total as nat, live@, former@),
{
    let both = live.combined(former);
    let mut out = String::new();
    proof {
        reveal_strlit("");
    }
    write_metric(&mut out, "", "uptime_seconds", "gauge", "Number of seconds since startup.", "", uptime);
    write_metric(
        &mut out,
        "",
        "connections_count",
        "counter",
        "Number of current connections.",
        "",
        count as u64,
    );
    write_metric(
        &mut out,
        "",
        "connections_total",
        "counter",
        "Total number of connections.",
        "",
        total as u64,
    );
    write_population(&mut out, "client", "by current clients.", "of current clients.", live);
    put(&mut out, "\n");
    write_population(&mut out, "former", "by former clients.", "of former clients.", former);
    put(&mut out, "\n");
    write_population(&mut out, "total", "overall.", "overall.", &both);
    assert(""@ + "uptime_seconds"@ =~= "uptime_seconds"@);
    assert(""@ + "connections_count"@ =~= "connections_count"@);
    assert(""@ + "connections_total"@ =~= "connections_total"@);
    assert("Number of seconds since startup."@ + ""@ =~= "Number of seconds since startup."@);
    assert("Number of current connections."@ + ""@ =~= "Number of current connections."@);
    assert("Total number of connections."@ + ""@ =~= "Total number of connections."@);
    assert(out@ =~= export_text(uptime as nat, count as nat, total as nat, live@, former@));
    out
}

} // verus!
