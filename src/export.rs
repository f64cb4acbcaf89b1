use vstd::prelude::*;
use vstd::string::*;
use crate::category::{category_name, Category};
use crate::expense::Expense;
use crate::text::{amount_text, decimal_digits, digit_char, format_amount};

verus! {

/// The first line of an export.
pub open spec fn csv_header() -> Seq<char> {
    "ID,Description,Amount,Category,Added At,Updated At"@
}

/// The fields of one exported expense, in column order.
pub open spec fn csv_fields(e: Expense) -> Seq<Seq<char>> {
    seq![
        e.id@,
        e.description@,
        amount_text(e.amount as int),
        category_name(e.category),
        e.added_at@,
        e.updated_at@,
    ]
}

/// One exported expense: its fields joined by commas, with no quoting.
pub open spec fn csv_row(e: Expense) -> Seq<char> {
    e.id@ + ","@ + e.description@ + ","@ + amount_text(e.amount as int) + ","@
        + category_name(e.category) + ","@ + e.added_at@ + ","@ + e.updated_at@
}

/// Lines written one after another, each ended by a newline.
pub open spec fn terminated(lines: Seq<Seq<char>>) -> Seq<char>
    decreases lines.len(),
{
    if lines.len() == 0 {
        Seq::empty()
    } else {
        terminated(lines.drop_last()) + lines.last() + "\n"@
    }
}

/// The lines of an export: the header, then one row per expense in order.
pub open spec fn csv_lines(s: Seq<Expense>) -> Seq<Seq<char>> {
    seq![csv_header()] + s.map_values(|e: Expense| csv_row(e))
}

/// The whole text of an export.
pub open spec fn csv_text(s: Seq<Expense>) -> Seq<char> {
    terminated(csv_lines(s))
}

/// One expense as an export row.
pub fn csv_line(e: &Expense) -> (r: String)
    ensures
        r@ == csv_row(*e),
{
    let mut r = e.id.clone();
    r.append(",");
    r.append(e.description.as_str());
    r.append(",");
    let amount = format_amount(e.amount as i128);
    r.append(amount.as_str());
    r.append(",");
    let name = e.category.name();
    r.append(name.as_str());
    r.append(",");
    r.append(e.added_at.as_str());
    r.append(",");
    r.append(e.updated_at.as_str());
    r
}

/// The text of an export of `expenses`: a header line, then one line per
/// expense, each ended by a newline.
pub fn export_csv(expenses: &[Expense]) -> (r: String)
    ensures
        r@ == csv_text(expenses@),
{
    let ghost rows = |e: Expense| csv_row(e);
    let mut r = String::from_str("ID,Description,Amount,Category,Added At,Updated At");
    r.append("\n");
    proof {
        let first = seq![csv_header()];
        assert(first.drop_last() =~= Seq::<Seq<char>>::empty());
        assert(first + expenses@.subrange(0, 0).map_values(rows) =~= first);
        assert(terminated(first) == terminated(Seq::<Seq<char>>::empty()) + csv_header() + "\n"@);
        assert(terminated(first) =~= r@);
    }
    let mut i: usize = 0;
    while i < expenses.len()
        invariant
            0 <= i <= expenses@.len(),
            rows == (|e: Expense| csv_row(e)),
            r@ == terminated(seq![csv_header()] + expenses@.subrange(0, i as int).map_values(rows)),
        decreases expenses@.len() - i,
    {
        let line = csv_line(&expenses[i]);
        r.append(line.as_str());
        r.append("\n");
        proof {
            let before = seq![csv_header()] + expenses@.subrange(0, i as int).map_values(rows);
            let after = seq![csv_header()] + expenses@.subrange(0, i + 1).map_values(rows);
            assert(after.drop_last() =~= before);
            assert(after.last() == csv_row(expenses@[i as int]));
        }
        i = i + 1;
    }
    proof {
        assert(expenses@.subrange(0, expenses@.len() as int) =~= expenses@);
    }
    r
}

/// The pieces of `t` between occurrences of `sep`, as `str::split` gives
/// them: one more piece than there are separators.
pub open spec fn split_on(t: Seq<char>, sep: char) -> Seq<Seq<char>>
    decreases t.len(),
{
    if t.len() == 0 {
        seq![Seq::empty()]
    } else {
        let parts = split_on(t.drop_last(), sep);
        if t.last() == sep {
            parts.push(Seq::empty())
        } else {
            parts.update(parts.len() - 1, parts.last().push(t.last()))
        }
    }
}

proof fn lemma_split_nonempty(t: Seq<char>, sep: char)
    ensures
        split_on(t, sep).len() >= 1,
    decreases t.len(),
{
    if t.len() > 0 {
        lemma_split_nonempty(t.drop_last(), sep);
    }
}

/// Text without the separator lengthens the last piece.
proof fn lemma_split_extend(a: Seq<char>, b: Seq<char>, sep: char)
    requires
        !b.contains(sep),
    ensures
        split_on(a + b, sep) == split_on(a, sep).update(
            split_on(a, sep).len() - 1,
            split_on(a, sep).last() + b,
        ),
    decreases b.len(),
{
    lemma_split_nonempty(a, sep);
    let p = split_on(a, sep);
    if b.len() == 0 {
        assert(a + b =~= a);
        assert(p.last() + b =~= p.last());
        assert(p.update(p.len() - 1, p.last() + b) =~= p);
    } else {
        let b2 = b.drop_last();
        assert forall|x: char| b2.contains(x) implies b.contains(x) by {
            let k = choose|k: int| 0 <= k < b2.len() && b2[k] == x;
            assert(b[k] == x);
        }
        lemma_split_extend(a, b2, sep);
        assert((a + b).drop_last() =~= a + b2);
        assert((a + b).last() == b.last());
        assert(b[b.len() - 1] == b.last());
        assert(b.last() != sep);
        assert(p.last() + b =~= (p.last() + b2).push(b.last()));
        assert(split_on(a + b, sep) =~= p.update(p.len() - 1, p.last() + b));
    }
}

/// A separator followed by text without one starts a new last piece.
proof fn lemma_split_then(a: Seq<char>, b: Seq<char>, sep: char)
    requires
        !b.contains(sep),
    ensures
        split_on(a + seq![sep] + b, sep) == split_on(a, sep).push(b),
{
    assert((a + seq![sep]).drop_last() =~= a);
    lemma_split_extend(a + seq![sep], b, sep);
    let p = split_on(a, sep).push(Seq::empty());
    assert(p.update(p.len() - 1, p.last() + b) =~= split_on(a, sep).push(b));
}

/// Lines ended by newlines split back into those lines and an empty end.
proof fn lemma_split_terminated(lines: Seq<Seq<char>>)
    requires
        forall|i: int| 0 <= i < lines.len() ==> !lines[i].contains('\n'),
    ensures
        split_on(terminated(lines), '\n') == lines.push(Seq::empty()),
    decreases lines.len(),
{
    reveal_strlit("\n");
    if lines.len() == 0 {
        assert(lines.push(Seq::empty()) =~= seq![Seq::<char>::empty()]);
    } else {
        let prev = lines.drop_last();
        lemma_split_terminated(prev);
        let before = terminated(prev);
        let last = lines.last();
        assert(!last.contains('\n'));
        lemma_split_extend(before, last, '\n');
        assert(before + seq!['\n'] =~= before + "\n"@);
        let whole = before + last;
        assert((whole + seq!['\n']).drop_last() =~= whole);
        assert(terminated(lines) =~= whole + seq!['\n']);
        let p = prev.push(Seq::empty());
        assert(p.update(p.len() - 1, p.last() + last) =~= lines);
    }
}

proof fn lemma_concat_free(a: Seq<char>, b: Seq<char>, x: char)
    requires
        !a.contains(x),
        !b.contains(x),
    ensures
        !(a + b).contains(x),
{
    if (a + b).contains(x) {
        let k = choose|k: int| 0 <= k < (a + b).len() && (a + b)[k] == x;
        if k < a.len() {
            assert(a[k] == x);
        } else {
            assert(b[k - a.len()] == x);
        }
    }
}

/// True when a text holds neither a comma nor a line break.
pub open spec fn plain_text(t: Seq<char>) -> bool {
    !t.contains(',') && !t.contains('\n')
}

/// True when no text that the user gave an expense holds a line break.
pub open spec fn one_line_fields(e: Expense) -> bool {
    &&& !e.id@.contains('\n')
    &&& !e.description@.contains('\n')
    &&& !e.added_at@.contains('\n')
    &&& !e.updated_at@.contains('\n')
}

/// True when no text that the user gave an expense holds a comma or a line
/// break.
pub open spec fn plain_fields(e: Expense) -> bool {
    &&& plain_text(e.id@)
    &&& plain_text(e.description@)
    &&& plain_text(e.added_at@)
    &&& plain_text(e.updated_at@)
}

proof fn lemma_plain_concat(a: Seq<char>, b: Seq<char>)
    requires
        plain_text(a),
        plain_text(b),
    ensures
        plain_text(a + b),
{
    lemma_concat_free(a, b, ',');
    lemma_concat_free(a, b, '\n');
}

proof fn lemma_char_plain(c: char)
    requires
        c != ',',
        c != '\n',
    ensures
        plain_text(seq![c]),
{
    let t = seq![c];
    if t.contains(',') || t.contains('\n') {
        let k = choose|k: int| 0 <= k < t.len() && (t[k] == ',' || t[k] == '\n');
        assert(t[k] == c);
    }
}

proof fn lemma_digits_plain(n: nat)
    ensures
        plain_text(decimal_digits(n)),
    decreases n,
{
    reveal_strlit("0123456789");
    let c = digit_char(n % 10);
    assert(c != ',' && c != '\n');
    lemma_char_plain(c);
    if n >= 10 {
        lemma_digits_plain(n / 10);
        lemma_plain_concat(decimal_digits(n / 10), seq![c]);
        assert(decimal_digits(n / 10).push(c) =~= decimal_digits(n / 10) + seq![c]);
    } else {
        assert(n % 10 == n);
    }
}

proof fn lemma_amount_plain(cents: int)
    ensures
        plain_text(amount_text(cents)),
{
    reveal_strlit("-");
    reveal_strlit("");
    reveal_strlit("0123456789");
    let m = if cents < 0 { -cents } else { cents };
    let frac = m % 100;
    lemma_char_plain('-');
    assert("-"@ =~= seq!['-']);
    lemma_char_plain('.');
    assert(plain_text(""@)) by {
        assert(""@.len() == 0);
    }
    lemma_digits_plain((m / 100) as nat);
    let sign = if cents < 0 { "-"@ } else { ""@ };
    let whole = decimal_digits((m / 100) as nat);
    lemma_plain_concat(sign, whole);
    let d1 = digit_char((frac / 10) as nat);
    let d2 = digit_char((frac % 10) as nat);
    assert(d1 != ',' && d1 != '\n');
    assert(d2 != ',' && d2 != '\n');
    lemma_char_plain(d1);
    lemma_char_plain(d2);
    lemma_plain_concat(seq!['.'], seq![d1]);
    assert(seq!['.', d1] =~= seq!['.'] + seq![d1]);
    lemma_plain_concat(seq!['.', d1], seq![d2]);
    assert(seq!['.', d1, d2] =~= seq!['.', d1] + seq![d2]);
    let tail = if frac == 0 {
        ""@
    } else if frac % 10 == 0 {
        seq!['.', d1]
    } else {
        seq!['.', d1, d2]
    };
    lemma_plain_concat(sign + whole, tail);
}

proof fn lemma_name_plain(c: Category)
    ensures
        plain_text(category_name(c)),
{
    let t = category_name(c);
    reveal_strlit("Food");
    reveal_strlit("Transportation");
    reveal_strlit("Entertainment");
    reveal_strlit("Internet");
    reveal_strlit("UtilityBill");
    reveal_strlit("Other");
    if t.contains(',') || t.contains('\n') {
        let k = choose|k: int| 0 <= k < t.len() && (t[k] == ',' || t[k] == '\n');
        assert(0 <= k < t.len());
    }
}

proof fn lemma_row_one_line(e: Expense)
    requires
        one_line_fields(e),
    ensures
        !csv_row(e).contains('\n'),
{
    reveal_strlit(",");
    let f = csv_fields(e);
    lemma_amount_plain(e.amount as int);
    lemma_name_plain(e.category);
    assert(!f[0].contains('\n') && !f[1].contains('\n') && !f[2].contains('\n'));
    assert(!f[3].contains('\n') && !f[4].contains('\n') && !f[5].contains('\n'));
    let c = seq![','];
    assert(","@ =~= c);
    let t1 = f[0] + c + f[1];
    let t2 = t1 + c + f[2];
    let t3 = t2 + c + f[3];
    let t4 = t3 + c + f[4];
    let t5 = t4 + c + f[5];
    assert(csv_row(e) =~= t5);
    assert(!c.contains('\n')) by {
        if c.contains('\n') {
            let k = choose|k: int| 0 <= k < c.len() && c[k] == '\n';
            assert(c[k] == ',');
        }
    }
    lemma_concat_free(f[0], c, '\n');
    lemma_concat_free(f[0] + c, f[1], '\n');
    lemma_concat_free(t1, c, '\n');
    lemma_concat_free(t1 + c, f[2], '\n');
    lemma_concat_free(t2, c, '\n');
    lemma_concat_free(t2 + c, f[3], '\n');
    lemma_concat_free(t3, c, '\n');
    lemma_concat_free(t3 + c, f[4], '\n');
    lemma_concat_free(t4, c, '\n');
    lemma_concat_free(t4 + c, f[5], '\n');
}

proof fn lemma_row_fields(e: Expense)
    requires
        plain_fields(e),
    ensures
        split_on(csv_row(e), ',') == csv_fields(e),
{
    reveal_strlit(",");
    let f = csv_fields(e);
    lemma_amount_plain(e.amount as int);
    lemma_name_plain(e.category);
    assert(!f[0].contains(',') && !f[1].contains(',') && !f[2].contains(','));
    assert(!f[3].contains(',') && !f[4].contains(',') && !f[5].contains(','));
    let c = seq![','];
    assert(","@ =~= c);
    assert(f[0] =~= Seq::<char>::empty() + f[0]);
    lemma_split_extend(Seq::<char>::empty(), f[0], ',');
    assert(split_on(Seq::<char>::empty(), ',').update(0, Seq::<char>::empty() + f[0]) =~= seq![f[0]]);
    let t1 = f[0] + c + f[1];
    lemma_split_then(f[0], f[1], ',');
    let t2 = t1 + c + f[2];
    lemma_split_then(t1, f[2], ',');
    let t3 = t2 + c + f[3];
    lemma_split_then(t2, f[3], ',');
    let t4 = t3 + c + f[4];
    lemma_split_then(t3, f[4], ',');
    let t5 = t4 + c + f[5];
    lemma_split_then(t4, f[5], ',');
    assert(csv_row(e) =~= t5);
    assert(seq![f[0]].push(f[1]).push(f[2]).push(f[3]).push(f[4]).push(f[5]) =~= f);
}

/// Reading an export back: split at line breaks, the text gives the header,
/// then one line per expense, in order, that is that expense's row, then the
/// empty rest after the last line break. This holds where no text that the
/// user gave an expense holds a line break. Where none holds a comma either,
/// each expense's line, split at commas, gives its fields in column order.
pub proof fn lemma_export_reads_back(s: Seq<Expense>)
    requires
        forall|i: int| 0 <= i < s.len() ==> one_line_fields(#[trigger] s[i]),
    ensures
        split_on(csv_text(s), '\n').len() == s.len() + 2,
        split_on(csv_text(s), '\n')[0] == csv_header(),
        split_on(csv_text(s), '\n')[s.len() + 1int] == Seq::<char>::empty(),
        forall|i: int| 0 <= i < s.len() ==>
            #[trigger] split_on(csv_text(s), '\n')[i + 1] == csv_row(s[i]),
        forall|i: int| 0 <= i < s.len() && plain_fields(s[i]) ==>
            split_on(#[trigger] split_on(csv_text(s), '\n')[i + 1], ',') == csv_fields(s[i]),
{
    let lines = csv_lines(s);
    reveal_strlit("ID,Description,Amount,Category,Added At,Updated At");
    assert(!csv_header().contains('\n')) by {
        if csv_header().contains('\n') {
            let k = choose|k: int| 0 <= k < csv_header().len() && csv_header()[k] == '\n';
        }
    }
    assert forall|i: int| 0 <= i < s.len() implies !lines[i + 1].contains('\n') && lines[i + 1] == csv_row(s[i]) by {
        assert(lines[i + 1] == csv_row(s[i]));
        lemma_row_one_line(s[i]);
    }
    assert forall|i: int| 0 <= i < lines.len() implies !lines[i].contains('\n') by {
        if i > 0 {
            assert(lines[(i - 1) + 1] == lines[i]);
        }
    }
    lemma_split_terminated(lines);
    assert forall|i: int| 0 <= i < s.len() && plain_fields(s[i]) implies
        split_on(#[trigger] split_on(csv_text(s), '\n')[i + 1], ',') == csv_fields(s[i]) by {
        assert(lines[i + 1] == csv_row(s[i]));
        lemma_row_fields(s[i]);
    }
}

} // verus!
