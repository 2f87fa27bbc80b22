//! About page logic: the device facts read from system files and `df`
//! output. Reading the files and running `df` happen outside; these
//! functions take what was read (`None` when the file was unreadable).

use vstd::prelude::*;
use crate::text::{
    chars_of, find_char, char_index_from, lines_of, words_of, parsed_u64, parse_u64, seqs_view,
    split_lines, split_words, str_eq, string_from, trim, trim_bounds, trimmed,
};

verus! {

/// Trimmed file content, empty when unreadable.
pub open spec fn trimmed_or_empty(content: Option<&str>) -> Seq<char> {
    match content {
        Some(c) => trimmed(c@),
        None => Seq::empty(),
    }
}

/// Hostname from a `hostname(5)`-style file's content, empty when the
/// file was unreadable.
pub fn hostname_from(content: Option<&str>) -> (name: String)
    ensures
        name@ == trimmed_or_empty(content),
{
    match content {
        Some(c) => trim(c),
        None => String::new(),
    }
}

/// Kernel release from `/proc/sys/kernel/osrelease`'s content, empty when
/// the file was unreadable.
pub fn kernel_from(content: Option<&str>) -> (release: String)
    ensures
        release@ == trimmed_or_empty(content),
{
    match content {
        Some(c) => trim(c),
        None => String::new(),
    }
}

/// The value of a `model name : value` cpuinfo line: the key is the
/// trimmed text before the first `:`, the value the trimmed text after it.
pub open spec fn line_model_name(line: Seq<char>) -> Option<Seq<char>> {
    match char_index_from(line, ':', 0) {
        Some(k) => if trimmed(line.take(k)) == "model name"@ {
            Some(trimmed(line.skip(k + 1)))
        } else {
            None
        },
        None => None,
    }
}

/// The first line's model name.
pub open spec fn first_model_name(lines: Seq<Seq<char>>) -> Option<Seq<char>>
    decreases lines.len(),
{
    if lines.len() == 0 {
        None
    } else {
        match line_model_name(lines[0]) {
            Some(v) => Some(v),
            None => first_model_name(lines.drop_first()),
        }
    }
}

pub open spec fn processor_spec(content: Option<&str>) -> Seq<char> {
    match content {
        Some(c) => match first_model_name(lines_of(c@)) {
            Some(v) => v,
            None => Seq::empty(),
        },
        None => Seq::empty(),
    }
}

fn model_name_of(line: &Vec<char>) -> (value: Option<String>)
    ensures
        match value {
            Some(v) => line_model_name(line@) == Some(v@),
            None => line_model_name(line@) is None,
        },
{
    let k = match find_char(line, ':') {
        Some(k) => k,
        None => return None,
    };
    let len = line.len();
    let (a, b) = trim_bounds(line, 0, k);
    let key = string_from(line, a, b);
    assert(line@.subrange(0, k as int) =~= line@.take(k as int));
    if str_eq(key.as_str(), "model name") {
        let (c, d) = trim_bounds(line, k + 1, len);
        assert(line@.subrange(k + 1, line@.len() as int) =~= line@.skip(k + 1));
        Some(string_from(line, c, d))
    } else {
        None
    }
}

/// First `model name` from cpuinfo's content, empty when missing or when
/// the file was unreadable.
pub fn processor_from(content: Option<&str>) -> (model: String)
    ensures
        model@ == processor_spec(content),
{
    let c = match content {
        Some(c) => c,
        None => return String::new(),
    };
    let cs = chars_of(c);
    let lines = split_lines(&cs);
    let ghost all = seqs_view(lines@);
    let n = lines.len();
    let mut i: usize = 0;
    assert(all.skip(0) =~= all);
    assert(processor_spec(content) == (match first_model_name(all) {
        Some(v) => v,
        None => Seq::<char>::empty(),
    }));
    while i < n
        invariant
            i <= n,
            n == lines@.len(),
            all == seqs_view(lines@),
            processor_spec(content) == (match first_model_name(all) {
                Some(v) => v,
                None => Seq::<char>::empty(),
            }),
            first_model_name(all) == first_model_name(all.skip(i as int)),
        decreases n - i,
    {
        assert(all.skip(i as int)[0] == lines@[i as int]@);
        assert(all.skip(i as int).drop_first() =~= all.skip(i + 1));
        match model_name_of(&lines[i]) {
            Some(v) => {
                assert(first_model_name(all.skip(i as int)) == Some(v@));
                return v;
            },
            None => {},
        }
        i += 1;
    }
    assert(all.skip(n as int).len() == 0);
    String::new()
}

/// What one `df` line says about the root filesystem: nothing (another
/// mount, or too few columns), or the verdict (source, used, total; none
/// when a size does not parse).
pub enum DfLine {
    Skip,
    Stop(Option<(Seq<char>, u64, u64)>),
}

pub open spec fn df_line(line: Seq<char>) -> DfLine {
    let parts = words_of(line);
    if parts.len() < 6 || parts[5] != seq!['/'] {
        DfLine::Skip
    } else {
        match (parsed_u64(parts[1]), parsed_u64(parts[2])) {
            (Some(total), Some(used)) => DfLine::Stop(Some((parts[0], used, total))),
            _ => DfLine::Stop(None),
        }
    }
}

pub open spec fn df_scan(lines: Seq<Seq<char>>) -> Option<(Seq<char>, u64, u64)>
    decreases lines.len(),
{
    if lines.len() == 0 {
        None
    } else {
        match df_line(lines[0]) {
            DfLine::Skip => df_scan(lines.drop_first()),
            DfLine::Stop(verdict) => verdict,
        }
    }
}

/// The `df` lines after the header line.
pub open spec fn df_rows(output: Seq<char>) -> Seq<Seq<char>> {
    let lines = lines_of(output);
    if lines.len() == 0 {
        lines
    } else {
        lines.drop_first()
    }
}

/// `(source, used bytes, total bytes)` of `/` from `df -B1` output: the
/// first line after the header mounted on `/` with at least six columns;
/// nothing when there is none or its sizes do not parse.
pub fn storage_fields(output: &str) -> (fields: Option<(String, u64, u64)>)
    ensures
        match fields {
            Some((source, used, total)) => df_scan(df_rows(output@)) == Some((source@, used, total)),
            None => df_scan(df_rows(output@)) is None,
        },
{
    let cs = chars_of(output);
    let lines = split_lines(&cs);
    let ghost all = seqs_view(lines@);
    let n = lines.len();
    if n == 0 {
        return None;
    }
    let mut i: usize = 1;
    assert(all.skip(1) =~= df_rows(output@));
    while i < n
        invariant
            1 <= i <= n,
            n == lines@.len(),
            all == seqs_view(lines@),
            df_scan(df_rows(output@)) == df_scan(all.skip(i as int)),
        decreases n - i,
    {
        let line = &lines[i];
        assert(all.skip(i as int)[0] == line@);
        assert(all.skip(i as int).drop_first() =~= all.skip(i + 1));
        let parts = split_words(line);
        let ghost ps = seqs_view(parts@);
        if parts.len() >= 6 && parts[5].len() == 1 && parts[5][0] == '/' {
            assert(ps[5] =~= seq!['/']);
            let total = parse_u64(&parts[1]);
            let used = parse_u64(&parts[2]);
            match (total, used) {
                (Some(total), Some(used)) => {
                    let source = string_from(&parts[0], 0, parts[0].len());
                    assert(parts@[0]@.subrange(0, parts@[0]@.len() as int) =~= ps[0]);
                    return Some((source, used, total));
                },
                _ => return None,
            }
        }
        proof {
            if ps.len() >= 6 {
                assert(ps[5] == parts@[5]@);
                if ps[5] == seq!['/'] {
                    assert(parts@[5]@.len() == 1 && parts@[5]@[0] == '/');
                }
            }
        }
        i += 1;
    }
    assert(all.skip(n as int).len() == 0);
    None
}

/// The value word of a `MemTotal:` meminfo line: the second word when the
/// first is `MemTotal:`.
pub open spec fn memtotal_word(line: Seq<char>) -> Option<Seq<char>> {
    let w = words_of(line);
    if w.len() >= 2 && w[0] == "MemTotal:"@ {
        Some(w[1])
    } else {
        None
    }
}

/// The value words of all `MemTotal:` lines, in order.
pub open spec fn memtotal_words(lines: Seq<Seq<char>>) -> Seq<Seq<char>>
    decreases lines.len(),
{
    if lines.len() == 0 {
        Seq::empty()
    } else {
        match memtotal_word(lines[0]) {
            Some(v) => seq![v] + memtotal_words(lines.drop_first()),
            None => memtotal_words(lines.drop_first()),
        }
    }
}

/// The values meminfo's `MemTotal:` lines give, in order (none when the
/// file was unreadable). The memory shown is the first that reads as a
/// number of kB.
pub fn memtotal_values(content: Option<&str>) -> (values: Vec<String>)
    ensures
        values@.map_values(|v: String| v@) == (match content {
            Some(c) => memtotal_words(lines_of(c@)),
            None => Seq::empty(),
        }),
{
    let mut values: Vec<String> = Vec::new();
    let c = match content {
        Some(c) => c,
        None => {
            assert(values@.map_values(|v: String| v@) =~= Seq::<Seq<char>>::empty());
            return values;
        },
    };
    let cs = chars_of(c);
    let lines = split_lines(&cs);
    let ghost all = seqs_view(lines@);
    let n = lines.len();
    let mut i: usize = 0;
    assert(all.skip(0) =~= all);
    assert(values@.map_values(|v: String| v@) + memtotal_words(all) =~= memtotal_words(all));
    while i < n
        invariant
            i <= n,
            n == lines@.len(),
            all == seqs_view(lines@),
            all == lines_of(c@),
            memtotal_words(all) == values@.map_values(|v: String| v@) + memtotal_words(all.skip(i as int)),
        decreases n - i,
    {
        let ghost rest = all.skip(i as int);
        assert(rest[0] == lines@[i as int]@);
        assert(rest.drop_first() =~= all.skip(i + 1));
        let words = split_words(&lines[i]);
        let ghost before = values@.map_values(|v: String| v@);
        if words.len() >= 2 {
            let first = string_from(&words[0], 0, words[0].len());
            assert(words[0]@.subrange(0, words[0]@.len() as int) =~= words[0]@);
            if str_eq(first.as_str(), "MemTotal:") {
                let value = string_from(&words[1], 0, words[1].len());
                assert(words[1]@.subrange(0, words[1]@.len() as int) =~= words[1]@);
                values.push(value);
                assert(values@.map_values(|v: String| v@) =~= before.push(words[1]@));
                assert(before.push(words[1]@) + memtotal_words(rest.drop_first()) =~= before + (seq![words[1]@] + memtotal_words(rest.drop_first())));
            }
        }
        i += 1;
    }
    assert(all.skip(n as int).len() == 0);
    assert(values@.map_values(|v: String| v@) + Seq::<Seq<char>>::empty() =~= values@.map_values(|v: String| v@));
    values
}

/// Value or fallback when empty.
pub fn none_if_empty(value: &str, fallback: &str) -> (shown: String)
    ensures
        shown@ == (if value@.len() == 0 {
            fallback@
        } else {
            value@
        }),
{
    if value.is_empty() {
        fallback.to_string()
    } else {
        value.to_string()
    }
}

} // verus!
