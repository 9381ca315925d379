//! Argument templates: `${name}` stands for the value that a table files
//! under `name`.

use vstd::prelude::*;
use crate::text::{chars_of, push_str, str_eq, string_of};

verus! {

/// The names and values of a table, over plain values.
pub open spec fn entries(table: Seq<(String, String)>) -> Seq<(Seq<char>, Seq<char>)> {
    Seq::new(table.len(), |i: int| (table[i].0@, table[i].1@))
}

/// The value that the first entry under `key` holds.
pub open spec fn value_of(table: Seq<(Seq<char>, Seq<char>)>, key: Seq<char>) -> Option<Seq<char>>
    decreases table.len(),
{
    if table.len() == 0 {
        None
    } else if table[0].0 == key {
        Some(table[0].1)
    } else {
        value_of(table.drop_first(), key)
    }
}

/// The value that a table files under `key`.
pub fn lookup_value<'a>(table: &'a Vec<(String, String)>, key: &str) -> (r: Option<&'a String>)
    ensures
        match r {
            Some(value) => value_of(entries(table@), key@) == Some(value@),
            None => value_of(entries(table@), key@) is None,
        },
{
    let mut i: usize = 0;
    proof {
        assert(entries(table@).skip(0) == entries(table@));
    }
    while i < table.len()
        invariant
            i <= table.len(),
            value_of(entries(table@), key@) == value_of(entries(table@).skip(i as int), key@),
        decreases table.len() - i,
    {
        proof {
            assert(entries(table@).skip(i as int).drop_first() == entries(table@).skip(i + 1));
            assert(entries(table@).skip(i as int)[0] == entries(table@)[i as int]);
        }
        if str_eq(table[i].0.as_str(), key) {
            return Some(&table[i].1);
        }
        i += 1;
    }
    None
}

/// `value` holds a blank.
pub open spec fn has_blank(value: Seq<char>) -> bool {
    exists|i: int| 0 <= i < value.len() && value[i] == ' '
}

/// Whether `value` holds a blank.
pub fn contains_blank(value: &str) -> (r: bool)
    ensures
        r == has_blank(value@),
{
    let v = chars_of(value);
    let mut i: usize = 0;
    while i < v.len()
        invariant
            i <= v.len(),
            v@ == value@,
            forall|j: int| 0 <= j < i ==> v@[j] != ' ',
        decreases v.len() - i,
    {
        if v[i] == ' ' {
            return true;
        }
        i += 1;
    }
    false
}

/// A value as it is written into an argument: between double quotes where
/// quoting is asked for and the value holds a blank.
pub open spec fn quoted(value: Seq<char>, quote: bool) -> Seq<char> {
    if quote && has_blank(value) {
        "\""@ + value + "\""@
    } else {
        value
    }
}

/// Appends `value` to `out`, quoted where that is asked for and needed.
pub fn push_quoted(out: &mut Vec<char>, value: &str, quote: bool)
    ensures
        final(out)@ == old(out)@ + quoted(value@, quote),
{
    if quote && contains_blank(value) {
        let ghost before = out@;
        push_str(out, "\"");
        push_str(out, value);
        push_str(out, "\"");
        proof {
            assert(out@ =~= before + ("\""@ + value@ + "\""@));
        }
    } else {
        push_str(out, value);
    }
}

/// The first position from `from` on that holds a closing brace, or the
/// length of `t` where none does.
pub open spec fn closing_brace(t: Seq<char>, from: int) -> int
    decreases t.len() - from,
{
    if from >= t.len() {
        t.len() as int
    } else if t[from] == '}' {
        from
    } else {
        closing_brace(t, from + 1)
    }
}

/// Where the placeholder ends with which `t` begins: `t` starts with `${`,
/// and its first closing brace comes after at least one more character.
pub open spec fn placeholder_end(t: Seq<char>) -> Option<int> {
    if t.len() >= 2 && t[0] == '$' && t[1] == '{' && 2 < closing_brace(t, 2) < t.len() {
        Some(closing_brace(t, 2))
    } else {
        None
    }
}

/// The template `t` with every placeholder `${name}` replaced by the value
/// that `table` files under `name`, quoted where that is asked for and the
/// value holds a blank. A placeholder whose name the table does not know
/// stays as it is, and so does everything that is no placeholder.
pub open spec fn fill(t: Seq<char>, table: Seq<(Seq<char>, Seq<char>)>, quote: bool) -> Seq<char>
    decreases t.len(),
{
    if t.len() == 0 {
        Seq::<char>::empty()
    } else {
        match placeholder_end(t) {
            Some(end) => (match value_of(table, t.subrange(2, end)) {
                Some(value) => quoted(value, quote),
                None => t.take(end + 1),
            }) + fill(t.skip(end + 1), table, quote),
            None => seq![t[0]] + fill(t.skip(1), table, quote),
        }
    }
}

/// Fills the placeholders of a template from a table.
pub fn format(template: &str, args: &Vec<(String, String)>, is_game_option: bool) -> (r: String)
    ensures
        r@ == fill(template@, entries(args@), is_game_option),
{
    let t = chars_of(template);
    let ghost table = entries(args@);
    let mut out: Vec<char> = Vec::new();
    let mut i: usize = 0;
    proof {
        assert(t@.skip(0) == t@);
    }
    while i < t.len()
        invariant
            i <= t.len(),
            t@ == template@,
            table == entries(args@),
            out@ + fill(t@.skip(i as int), table, is_game_option) == fill(
                t@,
                table,
                is_game_option,
            ),
        decreases t.len() - i,
    {
        let ghost rest = t@.skip(i as int);
        let mut end: Option<usize> = None;
        if t.len() - i >= 2 && t[i] == '$' && t[i + 1] == '{' {
            let mut j: usize = i + 2;
            while j < t.len() && t[j] != '}'
                invariant
                    i + 2 <= j <= t.len(),
                    rest == t@.skip(i as int),
                    closing_brace(rest, 2) == closing_brace(rest, j - i),
                decreases t.len() - j,
            {
                proof {
                    assert(rest[j - i] == t@[j as int]);
                }
                j += 1;
            }
            proof {
                if j < t.len() {
                    assert(rest[j - i] == t@[j as int]);
                }
                assert(closing_brace(rest, 2) == j - i);
            }
            if j < t.len() && j > i + 2 {
                end = Some(j);
            }
        }
        proof {
            assert(rest.len() > 0);
            assert(rest[0] == t@[i as int]);
            if rest.len() >= 2 {
                assert(rest[1] == t@[i + 1]);
            }
        }
        match end {
            Some(j) => {
                let ghost e = j - i;
                proof {
                    assert(placeholder_end(rest) == Some(e));
                    assert(rest.skip(e + 1) =~= t@.skip(j + 1));
                }
                let mut key: Vec<char> = Vec::new();
                let mut k: usize = i + 2;
                while k < j
                    invariant
                        i + 2 <= k <= j < t.len(),
                        key@ == t@.subrange(i + 2, k as int),
                    decreases j - k,
                {
                    key.push(t[k]);
                    k += 1;
                    proof {
                        assert(key@ =~= t@.subrange(i + 2, k as int));
                    }
                }
                proof {
                    assert(key@ =~= rest.subrange(2, e));
                }
                let key = string_of(&key);
                let ghost before = out@;
                match lookup_value(args, key.as_str()) {
                    Some(value) => {
                        push_quoted(&mut out, value.as_str(), is_game_option);
                    },
                    None => {
                        let mut k: usize = i;
                        while k <= j
                            invariant
                                i <= k <= j + 1,
                                j < t.len(),
                                out@ == before + t@.subrange(i as int, k as int),
                            decreases j + 1 - k,
                        {
                            out.push(t[k]);
                            k += 1;
                            proof {
                                assert(out@ =~= before + t@.subrange(i as int, k as int));
                            }
                        }
                        proof {
                            assert(t@.subrange(i as int, j + 1) =~= rest.take(e + 1));
                        }
                    },
                }
                proof {
                    let piece = match value_of(table, rest.subrange(2, e)) {
                        Some(value) => quoted(value, is_game_option),
                        None => rest.take(e + 1),
                    };
                    assert(out@ == before + piece);
                    assert(fill(rest, table, is_game_option) == piece + fill(
                        rest.skip(e + 1),
                        table,
                        is_game_option,
                    ));
                    assert(out@ + fill(t@.skip(j + 1), table, is_game_option) =~= before + fill(
                        rest,
                        table,
                        is_game_option,
                    ));
                }
                i = j + 1;
            },
            None => {
                let ghost before = out@;
                proof {
                    assert(placeholder_end(rest) is None);
                    assert(rest.skip(1) =~= t@.skip(i + 1));
                    assert(fill(rest, table, is_game_option) == seq![rest[0]] + fill(
                        rest.skip(1),
                        table,
                        is_game_option,
                    ));
                }
                out.push(t[i]);
                proof {
                    assert(out@ + fill(t@.skip(i + 1), table, is_game_option) =~= before + fill(
                        rest,
                        table,
                        is_game_option,
                    ));
                }
                i += 1;
            },
        }
    }
    proof {
        assert(t@.skip(t@.len() as int) =~= Seq::<char>::empty());
        assert(out@ + Seq::<char>::empty() =~= out@);
    }
    string_of(&out)
}

/// Each template of `templates` filled from `table`.
pub open spec fn fill_all(
    templates: Seq<Seq<char>>,
    table: Seq<(Seq<char>, Seq<char>)>,
    quote: bool,
) -> Seq<Seq<char>> {
    Seq::new(templates.len(), |i: int| fill(templates[i], table, quote))
}

} // verus!
