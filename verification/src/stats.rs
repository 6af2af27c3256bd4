use vstd::prelude::*;
use vstd::string::StringExecFns;
use crate::table::{NamedTable, stored_all, entry_views, distinct_names};
use crate::text::{chars_of, string_of, push_char};

verus! {

/// The pieces of a text between separators, as `str::split` gives them: a
/// text with `n` separators has `n + 1` pieces, some of them maybe empty.
pub open spec fn split_on(s: Seq<char>, sep: char) -> Seq<Seq<char>>
    decreases s.len(),
{
    if s.len() == 0 {
        seq![Seq::<char>::empty()]
    } else {
        let pieces = split_on(s.drop_last(), sep);
        if s.last() == sep {
            pieces.push(Seq::<char>::empty())
        } else {
            pieces.update(pieces.len() - 1, pieces.last().push(s.last()))
        }
    }
}

/// A text with every occurrence of a character removed.
pub open spec fn without_char(s: Seq<char>, c: char) -> Seq<char>
    decreases s.len(),
{
    if s.len() == 0 {
        s
    } else if s.last() == c {
        without_char(s.drop_last(), c)
    } else {
        without_char(s.drop_last(), c).push(s.last())
    }
}

/// The views of a list of character vectors.
pub open spec fn char_views(vs: Seq<Vec<char>>) -> Seq<Seq<char>> {
    vs.map_values(|v: Vec<char>| v@)
}

proof fn lemma_split_nonempty(s: Seq<char>, sep: char)
    ensures
        split_on(s, sep).len() >= 1,
    decreases s.len(),
{
    if s.len() > 0 {
        lemma_split_nonempty(s.drop_last(), sep);
    }
}

fn split_chars(s: &Vec<char>, sep: char) -> (r: Vec<Vec<char>>)
    ensures
        char_views(r@) == split_on(s@, sep),
{
    let mut done: Vec<Vec<char>> = Vec::new();
    let mut cur: Vec<char> = Vec::new();
    let mut i: usize = 0;
    proof {
        assert(s@.take(0) =~= Seq::<char>::empty());
        assert(char_views(done@).push(cur@) =~= split_on(s@.take(0), sep));
    }
    while i < s.len()
        invariant
            i <= s.len(),
            char_views(done@).push(cur@) == split_on(s@.take(i as int), sep),
        decreases s.len() - i,
    {
        let c = s[i];
        let ghost before_done = done@;
        let ghost before_cur = cur@;
        proof {
            assert(s@.take(i + 1).drop_last() =~= s@.take(i as int));
            assert(s@.take(i + 1).last() == c);
            lemma_split_nonempty(s@.take(i as int), sep);
        }
        if c == sep {
            done.push(cur);
            cur = Vec::new();
            proof {
                assert(char_views(done@) =~= char_views(before_done).push(before_cur));
                assert(char_views(done@).push(cur@) =~= split_on(s@.take(i + 1), sep));
            }
        } else {
            cur.push(c);
            proof {
                assert(char_views(done@) =~= char_views(before_done));
                assert(char_views(done@).push(cur@) =~= split_on(s@.take(i + 1), sep));
            }
        }
        i += 1;
    }
    let ghost before_done = done@;
    done.push(cur);
    proof {
        assert(s@.take(s.len() as int) =~= s@);
        assert(char_views(done@) =~= char_views(before_done).push(cur@));
    }
    done
}

fn remove_char(s: &Vec<char>, c: char) -> (r: Vec<char>)
    ensures
        r@ == without_char(s@, c),
{
    let mut r: Vec<char> = Vec::new();
    let mut i: usize = 0;
    proof {
        assert(s@.take(0) =~= Seq::<char>::empty());
    }
    while i < s.len()
        invariant
            i <= s.len(),
            r@ == without_char(s@.take(i as int), c),
        decreases s.len() - i,
    {
        proof {
            assert(s@.take(i + 1).drop_last() =~= s@.take(i as int));
            assert(s@.take(i + 1).last() == s@[i as int]);
        }
        if s[i] != c {
            r.push(s[i]);
        }
        i += 1;
    }
    proof {
        assert(s@.take(s.len() as int) =~= s@);
    }
    r
}

/// The fields of one line of a stat sheet: spaces are dropped, then the line
/// is split at each `:`.
pub open spec fn stat_fields(line: Seq<char>) -> Seq<Seq<char>> {
    split_on(without_char(line, ' '), ':')
}

/// The lines of a stat sheet.
pub open spec fn stat_lines(text: Seq<char>) -> Seq<Seq<char>> {
    split_on(text, '\n')
}

/// Every line of a stat sheet holds a `:`.
pub open spec fn stat_sheet_ok(text: Seq<char>) -> bool {
    forall|i: int| 0 <= i < stat_lines(text).len() ==> #[trigger] stat_fields(stat_lines(text)[i]).len() >= 2
}

/// The (name, value) pair of each line: the fields before and after its
/// first `:`, as far as the next `:`.
pub open spec fn stat_entries(text: Seq<char>) -> Seq<(Seq<char>, Seq<char>)> {
    stat_lines(text).map_values(|l: Seq<char>| (stat_fields(l)[0], stat_fields(l)[1]))
}

/// What a stat sheet reads as: each line's name with its value text, a later
/// line replacing an earlier one of the same name; `None` where a line holds
/// no `:`.
pub open spec fn stat_sheet_map(text: Seq<char>) -> Option<Map<Seq<char>, Seq<char>>> {
    if stat_sheet_ok(text) {
        Some(stored_all(Map::<Seq<char>, Seq<char>>::empty(), stat_entries(text)))
    } else {
        None
    }
}

/// The texts of a map of strings.
pub open spec fn text_values(m: Map<Seq<char>, String>) -> Map<Seq<char>, Seq<char>> {
    m.map_values(|v: String| v@)
}

/// Reads a stat sheet typed by a moderator, one `name : value` per line.
/// Returns each name with its value text (the value is not yet read as a
/// number), or `None` where a line holds no `:`.
pub fn stat_input_to_hash(text: &str) -> (r: Option<NamedTable<String>>)
    ensures
        r is Some <==> stat_sheet_ok(text@),
        r matches Some(t) ==> stat_sheet_map(text@) == Some(text_values(t@)),
{
    let chars = chars_of(text);
    let lines = split_chars(&chars, '\n');
    let ghost ls = stat_lines(text@);
    let ghost es = stat_entries(text@);
    let mut table: NamedTable<String> = NamedTable::new();
    let mut i: usize = 0;
    proof {
        assert(es.take(0) =~= Seq::<(Seq<char>, Seq<char>)>::empty());
        assert(text_values(table@) =~= Map::<Seq<char>, Seq<char>>::empty());
    }
    while i < lines.len()
        invariant
            char_views(lines@) == ls,
            ls == stat_lines(text@),
            es == stat_entries(text@),
            es.len() == ls.len(),
            i <= lines.len(),
            forall|j: int| 0 <= j < i ==> #[trigger] stat_fields(ls[j]).len() >= 2,
            text_values(table@) == stored_all(Map::<Seq<char>, Seq<char>>::empty(), es.take(i as int)),
        decreases lines.len() - i,
    {
        assert(lines@[i as int]@ == ls[i as int]);
        let cleaned = remove_char(&lines[i], ' ');
        let fields = split_chars(&cleaned, ':');
        assert(char_views(fields@) == stat_fields(ls[i as int]));
        if fields.len() < 2 {
            proof {
                assert(stat_fields(stat_lines(text@)[i as int]).len() < 2);
            }
            return None;
        }
        let name = string_of(&fields[0]);
        let value = string_of(&fields[1]);
        proof {
            assert(fields@[0]@ == stat_fields(ls[i as int])[0]);
            assert(fields@[1]@ == stat_fields(ls[i as int])[1]);
            assert(es[i as int] == (name@, value@));
            assert(es.take(i + 1).drop_last() =~= es.take(i as int));
        }
        let ghost before = table@;
        table.insert(name, value);
        proof {
            assert(text_values(table@) =~= text_values(before).insert(name@, value@));
        }
        i += 1;
    }
    proof {
        assert(es.take(lines.len() as int) =~= es);
        assert(stat_sheet_ok(text@));
    }
    Some(table)
}

/// Indexes stats by name; a later stat replaces an earlier one of the same
/// name.
pub fn parse_stats<T>(stats: Vec<(String, T)>) -> (table: NamedTable<T>)
    ensures
        table@ == stored_all(Map::<Seq<char>, T>::empty(), entry_views(stats@)),
        distinct_names(table.entries_view()),
{
    let mut table = NamedTable::new();
    table.insert_all(stats);
    table
}

/// The stats of a new character: the universe's stats, each replaced by the
/// stat of the same name that the moderator's sheet gives.
pub fn merge_stat_input<T>(server_stats: Vec<(String, T)>, input: Vec<(String, T)>) -> (table:
    NamedTable<T>)
    ensures
        table@ == stored_all(
            stored_all(Map::<Seq<char>, T>::empty(), entry_views(server_stats@)),
            entry_views(input@),
        ),
        distinct_names(table.entries_view()),
{
    let mut table = parse_stats(server_stats);
    table.insert_all(input);
    table
}

/// A stat as a moderator sees it when accepting a character: its name, its
/// base value already written out, and whether it is hidden.
pub struct StatView {
    pub name: String,
    pub value_text: String,
    pub hide: bool,
}

/// The (name, value) pairs of the stats that are not hidden, in order.
pub open spec fn visible_pairs(stats: Seq<StatView>) -> Seq<(Seq<char>, Seq<char>)>
    decreases stats.len(),
{
    if stats.len() == 0 {
        Seq::empty()
    } else if stats.last().hide {
        visible_pairs(stats.drop_last())
    } else {
        visible_pairs(stats.drop_last()).push((stats.last().name@, stats.last().value_text@))
    }
}

/// Whether a stat is shown to moderators.
pub open spec fn is_shown() -> spec_fn(StatView) -> bool {
    |s: StatView| !s.hide
}

/// The (name, value) pair of a stat.
pub open spec fn stat_pair() -> spec_fn(StatView) -> (Seq<char>, Seq<char>) {
    |s: StatView| (s.name@, s.value_text@)
}

/// The pairs written into a prefilled sheet are exactly the (name, value)
/// pairs of the stats that are not hidden, in their order: no hidden stat is
/// ever shown, and no shown stat is left out.
pub proof fn law_prefill_shows_unhidden(stats: Seq<StatView>)
    ensures
        visible_pairs(stats) == stats.filter(is_shown()).map_values(stat_pair()),
    decreases stats.len(),
{
    if stats.len() == 0 {
        assert(stats.filter(is_shown()) =~= Seq::<StatView>::empty());
        assert(stats.filter(is_shown()).map_values(stat_pair()) =~= Seq::<(Seq<char>, Seq<char>)>::empty());
    } else {
        let t = stats.drop_last();
        law_prefill_shows_unhidden(t);
        assert(t.push(stats.last()) =~= stats);
        t.lemma_filter_push(stats.last(), is_shown());
        if !stats.last().hide {
            assert(t.filter(is_shown()).push(stats.last()).map_values(stat_pair()) =~= t.filter(
                is_shown(),
            ).map_values(stat_pair()).push(stat_pair()(stats.last())));
        }
    }
}

/// The line written for one stat: `name : value`.
pub open spec fn stat_line(p: (Seq<char>, Seq<char>)) -> Seq<char> {
    p.0 + seq![' ', ':', ' '] + p.1
}

/// The prefilled sheet: one `name : value` line, ended by a newline, for
/// each pair.
pub open spec fn sheet_text(pairs: Seq<(Seq<char>, Seq<char>)>) -> Seq<char>
    decreases pairs.len(),
{
    if pairs.len() == 0 {
        Seq::empty()
    } else {
        sheet_text(pairs.drop_last()) + stat_line(pairs.last()) + seq!['\n']
    }
}

/// The stat sheet offered to a moderator when a character is accepted: a
/// `name : value` line, ended by a newline, for each stat that is not hidden.
pub fn stats_prefill(stats: &Vec<StatView>) -> (text: String)
    ensures
        text@ == sheet_text(visible_pairs(stats@)),
{
    let mut text = String::new();
    let mut i: usize = 0;
    proof {
        assert(stats@.take(0) =~= Seq::<StatView>::empty());
    }
    while i < stats.len()
        invariant
            i <= stats.len(),
            text@ == sheet_text(visible_pairs(stats@.take(i as int))),
        decreases stats.len() - i,
    {
        proof {
            assert(stats@.take(i + 1).drop_last() =~= stats@.take(i as int));
            assert(stats@.take(i + 1).last() == stats@[i as int]);
        }
        if !stats[i].hide {
            let ghost before = text@;
            text.append(stats[i].name.as_str());
            push_char(&mut text, ' ');
            push_char(&mut text, ':');
            push_char(&mut text, ' ');
            text.append(stats[i].value_text.as_str());
            push_char(&mut text, '\n');
            proof {
                let p = (stats@[i as int].name@, stats@[i as int].value_text@);
                let vp = visible_pairs(stats@.take(i + 1));
                assert(vp.drop_last() =~= visible_pairs(stats@.take(i as int)));
                assert(vp.last() == p);
                assert(text@ =~= before + stat_line(p) + seq!['\n']);
            }
        }
        i += 1;
    }
    proof {
        assert(stats@.take(stats.len() as int) =~= stats@);
    }
    text
}

proof fn lemma_split_append_free(a: Seq<char>, b: Seq<char>, sep: char)
    requires
        !b.contains(sep),
    ensures
        split_on(a + b, sep) == split_on(a, sep).update(
            split_on(a, sep).len() - 1,
            split_on(a, sep).last() + b,
        ),
    decreases b.len(),
{
    lemma_split_nonempty(a, sep);
    if b.len() == 0 {
        assert(a + b =~= a);
        assert(split_on(a, sep).last() + b =~= split_on(a, sep).last());
        assert(split_on(a, sep).update(split_on(a, sep).len() - 1, split_on(a, sep).last())
            =~= split_on(a, sep));
    } else {
        let b1 = b.drop_last();
        let c = b.last();
        assert(!b1.contains(sep)) by {
            if b1.contains(sep) {
                let k = choose|k: int| 0 <= k < b1.len() && b1[k] == sep;
                assert(b[k] == sep);
            }
        }
        assert(b[b.len() - 1] == c);
        assert(c != sep);
        lemma_split_append_free(a, b1, sep);
        assert((a + b).drop_last() =~= a + b1);
        assert((a + b).last() == c);
        let p = split_on(a, sep);
        assert(split_on(a + b, sep) =~= p.update(p.len() - 1, p.last() + b1).update(
            p.len() - 1,
            (p.last() + b1).push(c),
        ));
        assert((p.last() + b1).push(c) =~= p.last() + b);
        assert(split_on(a + b, sep) =~= p.update(p.len() - 1, p.last() + b));
    }
}

proof fn lemma_without_concat(a: Seq<char>, b: Seq<char>, c: char)
    ensures
        without_char(a + b, c) == without_char(a, c) + without_char(b, c),
    decreases b.len(),
{
    if b.len() == 0 {
        assert(a + b =~= a);
        assert(without_char(a, c) + without_char(b, c) =~= without_char(a, c));
    } else {
        lemma_without_concat(a, b.drop_last(), c);
        assert((a + b).drop_last() =~= a + b.drop_last());
        assert((a + b).last() == b.last());
        if b.last() == c {
        } else {
            assert(without_char(a, c) + without_char(b, c) =~= (without_char(a, c) + without_char(
                b.drop_last(),
                c,
            )).push(b.last()));
        }
    }
}

proof fn lemma_without_absent(s: Seq<char>, c: char)
    requires
        !s.contains(c),
    ensures
        without_char(s, c) == s,
    decreases s.len(),
{
    if s.len() > 0 {
        assert(s[s.len() - 1] == s.last());
        assert(!s.drop_last().contains(c)) by {
            if s.drop_last().contains(c) {
                let k = choose|k: int| 0 <= k < s.drop_last().len() && s.drop_last()[k] == c;
                assert(s[k] == c);
            }
        }
        lemma_without_absent(s.drop_last(), c);
        assert(s.drop_last().push(s.last()) =~= s);
    }
}

/// A name or value that a stat sheet line can carry unchanged: it holds no
/// space, no `:` and no newline.
pub open spec fn clean_field(s: Seq<char>) -> bool {
    !s.contains(' ') && !s.contains(':') && !s.contains('\n')
}

proof fn lemma_stat_line_fields(p: (Seq<char>, Seq<char>))
    requires
        clean_field(p.0),
        clean_field(p.1),
    ensures
        stat_fields(stat_line(p)) == seq![p.0, p.1],
        !stat_line(p).contains('\n'),
{
    let name = p.0;
    let value = p.1;
    let sp = seq![' ', ':', ' '];
    lemma_without_concat(name + sp, value, ' ');
    lemma_without_concat(name, sp, ' ');
    lemma_without_absent(name, ' ');
    lemma_without_absent(value, ' ');
    assert(without_char(sp, ' ') =~= seq![':']) by {
        reveal_with_fuel(without_char, 4);
        assert(sp.drop_last() =~= seq![' ', ':']);
        assert(sp.drop_last().drop_last() =~= seq![' ']);
        assert(sp.drop_last().drop_last().drop_last() =~= Seq::<char>::empty());
    }
    assert(stat_line(p) =~= name + sp + value);
    let joined = name.push(':') + value;
    assert(without_char(stat_line(p), ' ') =~= joined);
    lemma_split_append_free(Seq::<char>::empty(), name, ':');
    assert(Seq::<char>::empty() + name =~= name);
    assert(split_on(Seq::<char>::empty(), ':') =~= seq![Seq::<char>::empty()]);
    assert(split_on(name, ':') =~= seq![name]);
    assert(name.push(':').drop_last() =~= name);
    assert(split_on(name.push(':'), ':') =~= seq![name, Seq::<char>::empty()]);
    lemma_split_append_free(name.push(':'), value, ':');
    assert(split_on(joined, ':') =~= seq![name, value]);
    assert(!stat_line(p).contains('\n')) by {
        if stat_line(p).contains('\n') {
            let k = choose|k: int| 0 <= k < stat_line(p).len() && stat_line(p)[k] == '\n';
            if k < name.len() {
                assert(name[k] == '\n');
            } else if k < name.len() + 3 {
                assert(sp[k - name.len()] == '\n');
            } else {
                assert(value[k - name.len() - 3] == '\n');
            }
        }
    }
}

proof fn lemma_sheet_lines(ps: Seq<(Seq<char>, Seq<char>)>)
    requires
        ps.len() > 0,
        forall|i: int| 0 <= i < ps.len() ==> clean_field(#[trigger] ps[i].0) && clean_field(ps[i].1),
    ensures
        sheet_text(ps).len() > 0,
        sheet_text(ps).last() == '\n',
        split_on(sheet_text(ps).drop_last(), '\n') == ps.map_values(|p: (Seq<char>, Seq<char>)| stat_line(p)),
    decreases ps.len(),
{
    let pd = ps.drop_last();
    let line = stat_line(ps.last());
    assert(ps[ps.len() - 1] == ps.last());
    lemma_stat_line_fields(ps.last());
    assert(sheet_text(ps) =~= sheet_text(pd) + line + seq!['\n']);
    assert(sheet_text(ps).drop_last() =~= sheet_text(pd) + line);
    if pd.len() == 0 {
        assert(sheet_text(pd) =~= Seq::<char>::empty());
        lemma_split_append_free(Seq::<char>::empty(), line, '\n');
        assert(Seq::<char>::empty() + line =~= line);
        assert(split_on(Seq::<char>::empty(), '\n') =~= seq![Seq::<char>::empty()]);
        assert(split_on(line, '\n') =~= seq![line]);
        assert(ps.map_values(|p: (Seq<char>, Seq<char>)| stat_line(p)) =~= seq![line]);
    } else {
        assert forall|i: int| 0 <= i < pd.len() implies clean_field(#[trigger] pd[i].0) && clean_field(
            pd[i].1,
        ) by {
            assert(pd[i] == ps[i]);
        }
        lemma_sheet_lines(pd);
        let t = sheet_text(pd).drop_last();
        assert(sheet_text(pd) =~= t.push('\n'));
        lemma_split_nonempty(t, '\n');
        let q = split_on(t, '\n');
        assert(t.push('\n').drop_last() =~= t);
        assert(split_on(t.push('\n'), '\n') =~= q.push(Seq::<char>::empty()));
        lemma_split_append_free(t.push('\n'), line, '\n');
        assert(Seq::<char>::empty() + line =~= line);
        assert(split_on(t.push('\n') + line, '\n') =~= q.push(line));
        assert(ps.map_values(|p: (Seq<char>, Seq<char>)| stat_line(p)) =~= pd.map_values(
            |p: (Seq<char>, Seq<char>)| stat_line(p),
        ).push(line));
    }
}

/// The sheet prefilled for a moderator reads back as the stats it shows, once
/// its final newline is taken off; read with that newline, its last line is
/// empty and the sheet is refused. This holds where the shown names and
/// values hold no space, `:` or newline.
pub proof fn law_prefill_reads_back(stats: Seq<StatView>)
    requires
        visible_pairs(stats).len() > 0,
        forall|i: int|
            0 <= i < visible_pairs(stats).len() ==> clean_field(#[trigger] visible_pairs(stats)[i].0)
                && clean_field(visible_pairs(stats)[i].1),
    ensures
        stat_sheet_map(sheet_text(visible_pairs(stats))) is None,
        stat_sheet_map(sheet_text(visible_pairs(stats)).drop_last()) == Some(
            stored_all(Map::<Seq<char>, Seq<char>>::empty(), visible_pairs(stats)),
        ),
{
    let ps = visible_pairs(stats);
    lemma_sheet_lines(ps);
    let full = sheet_text(ps);
    let t = full.drop_last();
    let lines = split_on(t, '\n');
    assert(lines.len() == ps.len());
    assert forall|i: int| 0 <= i < lines.len() implies #[trigger] stat_fields(lines[i]) == seq![
        ps[i].0,
        ps[i].1,
    ] by {
        assert(0 <= i < ps.len());
        assert(clean_field(visible_pairs(stats)[i].0));
        assert(clean_field(ps[i].0) && clean_field(ps[i].1));
        lemma_stat_line_fields(ps[i]);
    }
    assert(stat_sheet_ok(t)) by {
        assert forall|i: int| 0 <= i < stat_lines(t).len() implies #[trigger] stat_fields(
            stat_lines(t)[i],
        ).len() >= 2 by {
            assert(stat_fields(lines[i]) == seq![ps[i].0, ps[i].1]);
        }
    }
    assert(stat_entries(t) =~= ps) by {
        assert forall|i: int| 0 <= i < ps.len() implies #[trigger] stat_entries(t)[i] == ps[i] by {
            assert(stat_fields(lines[i]) == seq![ps[i].0, ps[i].1]);
        }
    }
    assert(full =~= t.push('\n'));
    assert(t.push('\n').drop_last() =~= t);
    lemma_split_nonempty(t, '\n');
    assert(stat_lines(full) =~= lines.push(Seq::<char>::empty()));
    assert(without_char(Seq::<char>::empty(), ' ') =~= Seq::<char>::empty());
    assert(stat_fields(Seq::<char>::empty()) =~= seq![Seq::<char>::empty()]);
    assert(stat_fields(stat_lines(full)[lines.len() as int]).len() < 2);
}

} // verus!
