//! Renders the report: header, tagline, total count, one bullet line per
//! repository, license and acknowledgment sections, and the closing timestamp
//! line. The exact character content of the whole document is specified.

use crate::model::{Repository, RepositoryView};
use crate::numfmt::{push_decimal, spec_decimal};
use vstd::prelude::*;

verus! {

/// The title line and the fixed tagline that open the report.
pub open spec fn spec_header() -> Seq<char> {
    "# Tools create in Rust\n\n"@
        + "Parady to \"Everybody cares about random tools created in rust\".\n\n"@
}

/// The line giving how many repositories matched in all.
pub open spec fn spec_total_line(total_count: u64) -> Seq<char> {
    "Total repositories: "@ + spec_decimal(total_count as nat) + "\n\n"@
}

/// One bullet line: `- [name](url) - description`.
pub open spec fn spec_bullet(r: RepositoryView) -> Seq<char> {
    "- ["@ + r.name + "]("@ + r.url + ") - "@ + r.description + "\n"@
}

/// The bullet lines of all repositories, in order.
pub open spec fn spec_bullets(items: Seq<RepositoryView>) -> Seq<char>
    decreases items.len(),
{
    if items.len() == 0 {
        Seq::empty()
    } else {
        spec_bullets(items.drop_last()) + spec_bullet(items.last())
    }
}

/// The license section.
pub open spec fn spec_license() -> Seq<char> {
    "\n\n"@ + "## License\n\n"@
        + "This project is licensed under the MIT License - see the [LICENSE.md](LICENSE.md) file for details\n\n"@
}

/// The acknowledgments section.
pub open spec fn spec_acknowledgments() -> Seq<char> {
    "## Acknowledgments\n\n"@ + "- [GitHub](https://github.com)\n"@
        + "- [Rust](https://www.rust-lang.org)\n"@ + "\n\n"@
}

/// The closing line holding the timestamp of the run.
pub open spec fn spec_timestamp_line(ts: Seq<char>) -> Seq<char> {
    "##### _Last Run on "@ + ts + "_\n\n"@
}

/// The whole report for one total count, one repository list and one
/// timestamp rendering.
pub open spec fn spec_report(total_count: u64, items: Seq<RepositoryView>, ts: Seq<char>) -> Seq<
    char,
> {
    spec_header() + spec_total_line(total_count) + spec_bullets(items) + spec_license()
        + spec_acknowledgments() + spec_timestamp_line(ts)
}

/// How many newline characters a text holds.
pub open spec fn spec_newline_count(s: Seq<char>) -> nat
    decreases s.len(),
{
    if s.len() == 0 {
        0
    } else {
        spec_newline_count(s.drop_last()) + (if s.last() == '\n' {
            1nat
        } else {
            0nat
        })
    }
}

/// Newline counting distributes over concatenation.
proof fn lemma_newline_count_add(a: Seq<char>, b: Seq<char>)
    ensures
        spec_newline_count(a + b) == spec_newline_count(a) + spec_newline_count(b),
    decreases b.len(),
{
    if b.len() == 0 {
        assert(a + b =~= a);
    } else {
        lemma_newline_count_add(a, b.drop_last());
        assert((a + b).drop_last() =~= a + b.drop_last());
        assert((a + b).last() == b.last());
    }
}

/// A text without newlines holds none to count.
proof fn lemma_newline_count_zero(s: Seq<char>)
    requires
        !s.contains('\n'),
    ensures
        spec_newline_count(s) == 0,
    decreases s.len(),
{
    if s.len() > 0 {
        assert(!s.drop_last().contains('\n')) by {
            if s.drop_last().contains('\n') {
                let i = choose|i: int|
                    0 <= i < s.drop_last().len() && s.drop_last()[i] == '\n';
                assert(s[i] == '\n');
            }
        }
        lemma_newline_count_zero(s.drop_last());
    }
}

/// A bullet whose fields hold no newline is exactly one line: it holds the
/// one newline it ends with.
proof fn lemma_bullet_newline_count(r: RepositoryView)
    requires
        !r.name.contains('\n'),
        !r.description.contains('\n'),
        !r.url.contains('\n'),
    ensures
        spec_newline_count(spec_bullet(r)) == 1,
{
    reveal_strlit("- [");
    reveal_strlit("](");
    reveal_strlit(") - ");
    reveal_strlit("\n");
    assert(!"- ["@.contains('\n'));
    assert(!"]("@.contains('\n'));
    assert(!") - "@.contains('\n'));
    lemma_newline_count_zero("- ["@);
    lemma_newline_count_zero(r.name);
    lemma_newline_count_zero("]("@);
    lemma_newline_count_zero(r.url);
    lemma_newline_count_zero(") - "@);
    lemma_newline_count_zero(r.description);
    assert("\n"@.drop_last() =~= Seq::<char>::empty());
    assert("\n"@.len() == 1);
    assert("\n"@.last() == '\n');
    assert(spec_newline_count(Seq::<char>::empty()) == 0);
    assert(spec_newline_count("\n"@) == spec_newline_count("\n"@.drop_last()) + 1nat);
    lemma_newline_count_add("- ["@, r.name);
    lemma_newline_count_add("- ["@ + r.name, "]("@);
    lemma_newline_count_add("- ["@ + r.name + "]("@, r.url);
    lemma_newline_count_add("- ["@ + r.name + "]("@ + r.url, ") - "@);
    lemma_newline_count_add("- ["@ + r.name + "]("@ + r.url + ") - "@, r.description);
    lemma_newline_count_add(
        "- ["@ + r.name + "]("@ + r.url + ") - "@ + r.description,
        "\n"@,
    );
}

/// With newline-free fields, the bullet block of `items` holds exactly one
/// newline per repository: the report shows exactly as many bullet lines as
/// the response has records, and by definition the line of record `i` is
/// `spec_bullet(items[i])`.
pub proof fn lemma_bullets_line_count(items: Seq<RepositoryView>)
    requires
        forall|i: int|
            0 <= i < items.len() ==> !(#[trigger] items[i]).name.contains('\n') && !items[i].description.contains(
                '\n',
            ) && !items[i].url.contains('\n'),
    ensures
        spec_newline_count(spec_bullets(items)) == items.len(),
    decreases items.len(),
{
    if items.len() > 0 {
        assert(forall|i: int|
            0 <= i < items.drop_last().len() ==> items.drop_last()[i] == items[i]);
        lemma_bullets_line_count(items.drop_last());
        lemma_bullet_newline_count(items.last());
        lemma_newline_count_add(spec_bullets(items.drop_last()), spec_bullet(items.last()));
    }
}

/// Extending the bullet block by one record appends exactly that record's
/// bullet line.
proof fn lemma_bullets_take_succ(items: Seq<RepositoryView>, i: int)
    requires
        0 <= i < items.len(),
    ensures
        spec_bullets(items.take(i + 1)) == spec_bullets(items.take(i)) + spec_bullet(items[i]),
{
    assert(items.take(i + 1).drop_last() =~= items.take(i));
    assert(items.take(i + 1).last() == items[i]);
}

/// The bullet block of the first `k` records is a prefix of the whole bullet
/// block.
proof fn lemma_bullets_prefix(items: Seq<RepositoryView>, k: int)
    requires
        0 <= k <= items.len(),
    ensures
        spec_bullets(items).len() >= spec_bullets(items.take(k)).len(),
        spec_bullets(items).subrange(0, spec_bullets(items.take(k)).len() as int)
            == spec_bullets(items.take(k)),
    decreases items.len() - k,
{
    if k == items.len() {
        assert(items.take(k) =~= items);
        assert(spec_bullets(items).subrange(0, spec_bullets(items).len() as int) =~= spec_bullets(
            items,
        ));
    } else {
        lemma_bullets_prefix(items, k + 1);
        lemma_bullets_take_succ(items, k);
        let whole = spec_bullets(items);
        let shorter = spec_bullets(items.take(k));
        let longer = spec_bullets(items.take(k + 1));
        assert(longer.subrange(0, shorter.len() as int) =~= shorter);
        assert(whole.subrange(0, shorter.len() as int) =~= whole.subrange(
            0,
            longer.len() as int,
        ).subrange(0, shorter.len() as int));
    }
}

/// Each record's bullet line stands verbatim in the bullet block, at the
/// offset just after the bullet lines of the records before it.
pub proof fn lemma_bullet_at(items: Seq<RepositoryView>, i: int)
    requires
        0 <= i < items.len(),
    ensures
        spec_bullets(items.take(i)).len() + spec_bullet(items[i]).len() <= spec_bullets(
            items,
        ).len(),
        spec_bullets(items).subrange(
            spec_bullets(items.take(i)).len() as int,
            (spec_bullets(items.take(i)).len() + spec_bullet(items[i]).len()) as int,
        ) == spec_bullet(items[i]),
{
    lemma_bullets_prefix(items, i + 1);
    lemma_bullets_take_succ(items, i);
    let whole = spec_bullets(items);
    let pre = spec_bullets(items.take(i));
    let line = spec_bullet(items[i]);
    assert(whole.subrange(0, (pre.len() + line.len()) as int) == pre + line);
    assert(whole.subrange(pre.len() as int, (pre.len() + line.len()) as int) =~= whole.subrange(
        0,
        (pre.len() + line.len()) as int,
    ).subrange(pre.len() as int, (pre.len() + line.len()) as int));
    assert((pre + line).subrange(pre.len() as int, (pre.len() + line.len()) as int) =~= line);
}

/// The report always ends with the closing timestamp line.
pub proof fn lemma_report_ends_with_timestamp(
    total_count: u64,
    items: Seq<RepositoryView>,
    ts: Seq<char>,
)
    ensures
        spec_report(total_count, items, ts).len() >= spec_timestamp_line(ts).len(),
        spec_report(total_count, items, ts).subrange(
            spec_report(total_count, items, ts).len() - spec_timestamp_line(ts).len(),
            spec_report(total_count, items, ts).len() as int,
        ) == spec_timestamp_line(ts),
{
    let a = spec_header() + spec_total_line(total_count) + spec_bullets(items) + spec_license()
        + spec_acknowledgments();
    let line = spec_timestamp_line(ts);
    assert(spec_report(total_count, items, ts) =~= a + line);
    assert((a + line).subrange(a.len() as int, (a.len() + line.len()) as int) =~= line);
}

/// Renders the whole report for one total count and one repository list,
/// closing with `timestamp`.
pub fn render_report(total_count: u64, items: &Vec<Repository>, timestamp: &str) -> (out: String)
    ensures
        out@ == spec_report(total_count, items@.map_values(|x: Repository| x@), timestamp@),
{
    let ghost views: Seq<RepositoryView> = items@.map_values(|x: Repository| x@);
    let mut out = String::new();
    out.append("# Tools create in Rust\n\n");
    out.append("Parady to \"Everybody cares about random tools created in rust\".\n\n");
    out.append("Total repositories: ");
    push_decimal(&mut out, total_count);
    out.append("\n\n");
    proof {
        assert(out@ =~= spec_header() + spec_total_line(total_count) + spec_bullets(
            views.take(0),
        ));
    }
    let ghost pre: Seq<char> = spec_header() + spec_total_line(total_count);
    let mut i: usize = 0;
    while i < items.len()
        invariant
            i <= items.len(),
            views == items@.map_values(|x: Repository| x@),
            pre == spec_header() + spec_total_line(total_count),
            out@ == pre + spec_bullets(views.take(i as int)),
        decreases items.len() - i,
    {
        let item = &items[i];
        out.append("- [");
        out.append(item.name.as_str());
        out.append("](");
        out.append(item.url.as_str());
        out.append(") - ");
        out.append(item.description.as_str());
        out.append("\n");
        proof {
            assert(item@ == views[i as int]);
            assert(views.take(i + 1).drop_last() =~= views.take(i as int));
            assert(views.take(i + 1).last() == views[i as int]);
            assert(out@ =~= pre + spec_bullets(views.take(i + 1)));
        }
        i = i + 1;
    }
    proof {
        assert(views.take(i as int) =~= views);
    }
    out.append("\n\n");
    out.append("## License\n\n");
    out.append(
        "This project is licensed under the MIT License - see the [LICENSE.md](LICENSE.md) file for details\n\n",
    );
    out.append("## Acknowledgments\n\n");
    out.append("- [GitHub](https://github.com)\n");
    out.append("- [Rust](https://www.rust-lang.org)\n");
    out.append("\n\n");
    out.append("##### _Last Run on ");
    out.append(timestamp);
    out.append("_\n\n");
    proof {
        assert(out@ =~= spec_report(total_count, views, timestamp@));
    }
    out
}

} // verus!
