//! The key/value map of `hostapd` MIB records.
//!
//! A record is line-oriented text: each `key=value` line binds a key, a
//! later line for the same key overrides an earlier one, and a line
//! without `=` binds nothing.  [`MibVars`] is the resulting map, modeled
//! by [`MibVars::spec_get`]; [`spec_key_value`] is the mathematical
//! reading of a whole record, line by line.

use vstd::prelude::*;
use vstd::string::*;

use crate::text::{find_char_from, lemma_split_first, spec_split, str_eq};

verus! {

/// The key and value of one record line, if it binds one: the line is
/// split at `=`, the first part is the key and the second the value, so a
/// line without `=` binds nothing and a second `=` ends the value.
pub open spec fn spec_line_kv(line: Seq<char>) -> Option<(Seq<char>, Seq<char>)> {
    let parts = spec_split(line, '=');
    if parts.len() < 2 {
        None
    } else {
        Some((parts[0], parts[1]))
    }
}

/// The value bound to `k` after processing `lines` in order, a later
/// binding overriding an earlier one.
pub open spec fn spec_lines_lookup(lines: Seq<Seq<char>>, k: Seq<char>) -> Option<Seq<char>>
    decreases lines.len(),
{
    if lines.len() == 0 {
        None
    } else {
        match spec_line_kv(lines.last()) {
            Some(kv) => if kv.0 == k {
                Some(kv.1)
            } else {
                spec_lines_lookup(lines.drop_last(), k)
            },
            None => spec_lines_lookup(lines.drop_last(), k),
        }
    }
}

/// The value bound to `k` by the whole record `s`: its lines are the split
/// of `s` at `'\n'`.
pub open spec fn spec_key_value(s: Seq<char>, k: Seq<char>) -> Option<Seq<char>> {
    spec_lines_lookup(spec_split(s, '\n'), k)
}

/// Processing one more line either rebinds the key that line carries or
/// leaves every binding as it was.
pub proof fn lemma_lines_lookup_push(lines: Seq<Seq<char>>, line: Seq<char>, k: Seq<char>)
    ensures
        spec_lines_lookup(lines.push(line), k) == (match spec_line_kv(line) {
            Some(kv) => if kv.0 == k {
                Some(kv.1)
            } else {
                spec_lines_lookup(lines, k)
            },
            None => spec_lines_lookup(lines, k),
        }),
{
    let l2 = lines.push(line);
    assert(l2.last() == line);
    assert(l2.drop_last() =~= lines);
}

spec fn assoc_lookup(es: Seq<(String, String)>, k: Seq<char>) -> Option<Seq<char>>
    decreases es.len(),
{
    if es.len() == 0 {
        None
    } else if es.last().0@ == k {
        Some(es.last().1@)
    } else {
        assoc_lookup(es.drop_last(), k)
    }
}

/// The key/value bindings of one MIB record: a map from key text to value
/// text, where inserting a key again overrides its earlier value.
#[derive(Debug)]
pub struct MibVars {
    entries: Vec<(String, String)>,
}

impl MibVars {
    /// The value bound to `k`, if any.
    pub closed spec fn spec_get(&self, k: Seq<char>) -> Option<Seq<char>> {
        assoc_lookup(self.entries@, k)
    }

    /// An empty map: nothing is bound.
    pub fn new() -> (r: Self)
        ensures
            forall|k: Seq<char>| r.spec_get(k) is None,
    {
        MibVars { entries: Vec::new() }
    }

    /// Binds `value` to `key`, overriding any earlier binding of `key` and
    /// leaving every other key unchanged.
    pub fn insert(&mut self, key: String, value: String)
        ensures
            final(self).spec_get(key@) == Some(value@),
            forall|k2: Seq<char>|
                k2 != key@ ==> final(self).spec_get(k2) == old(self).spec_get(k2),
    {
        self.entries.push((key, value));
        proof {
            assert(self.entries@.last() == (key, value));
            assert(self.entries@.drop_last() =~= old(self).entries@);
        }
    }

    /// The value bound to `key`, as an owned string.
    pub fn get(&self, key: &str) -> (r: Option<String>)
        ensures
            match r {
                Some(v) => self.spec_get(key@) == Some(v@),
                None => self.spec_get(key@) is None,
            },
    {
        let ghost es = self.entries@;
        let n = self.entries.len();
        proof {
            assert(es.take(n as int) =~= es);
        }
        let mut i: usize = n;
        while i > 0
            invariant
                i <= n,
                n == es.len(),
                es == self.entries@,
                assoc_lookup(es, key@) == assoc_lookup(es.take(i as int), key@),
            decreases i,
        {
            i = i - 1;
            let hit = str_eq(self.entries[i].0.as_str(), key);
            proof {
                assert(es.take(i + 1).last() == es[i as int]);
                assert(es.take(i + 1).drop_last() =~= es.take(i as int));
            }
            if hit {
                let v = self.entries[i].1.clone();
                return Some(v);
            }
        }
        proof {
            assert(es.take(0) =~= Seq::<(String, String)>::empty());
        }
        None
    }
}

/// Reads one record line into the map: a `key=value` line rebinds its key,
/// a line without `=` binds nothing.
pub fn insert_line(map: &mut MibVars, line: &str)
    ensures
        forall|k: Seq<char>|
            final(map).spec_get(k) == (match spec_line_kv(line@) {
                Some(kv) => if kv.0 == k {
                    Some(kv.1)
                } else {
                    old(map).spec_get(k)
                },
                None => old(map).spec_get(k),
            }),
{
    let llen = line.unicode_len();
    match find_char_from(line, 0, '=') {
        None => {
            proof {
                lemma_split_first(line@, '=', llen as int);
                assert(spec_line_kv(line@) is None);
            }
        },
        Some(e1) => {
            let key = line.substring_char(0, e1).to_owned();
            let e2 = match find_char_from(line, e1 + 1, '=') {
                Some(j) => j,
                None => llen,
            };
            let value = line.substring_char(e1 + 1, e2).to_owned();
            proof {
                lemma_split_first(line@, '=', e1 as int);
                let rest = line@.skip(e1 + 1);
                assert(forall|j: int|
                    0 <= j < rest.len() ==> rest[j] == line@[j + e1 + 1]);
                if e2 < llen {
                    lemma_split_first(rest, '=', e2 - e1 - 1);
                    assert(rest.take(e2 - e1 - 1) =~= line@.subrange(e1 + 1, e2 as int));
                    assert(spec_split(line@, '=')[1] == line@.subrange(e1 + 1, e2 as int));
                } else {
                    lemma_split_first(rest, '=', rest.len() as int);
                    assert(rest =~= line@.subrange(e1 + 1, e2 as int));
                    assert(spec_split(line@, '=')[1] == line@.subrange(e1 + 1, e2 as int));
                }
                assert(spec_line_kv(line@) == Some(
                    (line@.subrange(0, e1 as int), line@.subrange(e1 + 1, e2 as int)),
                ));
            }
            map.insert(key, value);
        },
    }
}

/// Reads a whole record into a fresh map, line by line in order, so that
/// every key is bound to the value of its last `key=value` line.
pub fn key_value_map(value: &String) -> (r: MibVars)
    ensures
        forall|k: Seq<char>| r.spec_get(k) == spec_key_value(value@, k),
{
    let s = value.as_str();
    let len = s.unicode_len();
    let mut map = MibVars::new();
    let mut pos: usize = 0;
    let ghost all_lines = spec_split(s@, '\n');
    let ghost mut processed: Seq<Seq<char>> = Seq::empty();
    proof {
        assert(s@.skip(0) =~= s@);
        assert(all_lines =~~= processed + spec_split(s@.skip(0), '\n'));
    }
    loop
        invariant_except_break
            all_lines =~~= processed + spec_split(s@.skip(pos as int), '\n'),
        invariant
            pos <= len,
            len == s@.len(),
            all_lines == spec_split(s@, '\n'),
            forall|k: Seq<char>| map.spec_get(k) == spec_lines_lookup(processed, k),
        ensures
            forall|k: Seq<char>| map.spec_get(k) == spec_lines_lookup(all_lines, k),
        decreases len - pos,
    {
        let nl_opt = find_char_from(s, pos, '\n');
        let end = match nl_opt {
            Some(nl) => nl,
            None => len,
        };
        let line = s.substring_char(pos, end);
        let ghost rem = s@.skip(pos as int);
        proof {
            assert(forall|j: int| 0 <= j < rem.len() ==> rem[j] == s@[j + pos]);
            lemma_split_first(rem, '\n', end - pos as int);
            assert(rem.take(end - pos as int) =~= line@);
        }
        insert_line(&mut map, line);
        proof {
            assert forall|k: Seq<char>|
                spec_lines_lookup(processed.push(line@), k) == (match spec_line_kv(line@) {
                    Some(kv) => if kv.0 == k {
                        Some(kv.1)
                    } else {
                        spec_lines_lookup(processed, k)
                    },
                    None => spec_lines_lookup(processed, k),
                }) by {
                lemma_lines_lookup_push(processed, line@, k);
            }
            processed = processed.push(line@);
        }
        match nl_opt {
            Some(nl) => {
                proof {
                    assert(rem.skip(end - pos + 1) =~= s@.skip(end + 1));
                    assert(all_lines =~~= processed + spec_split(s@.skip(end + 1), '\n'));
                }
                pos = nl + 1;
            },
            None => {
                proof {
                    assert(spec_split(rem, '\n') =~~= seq![line@]);
                    assert(all_lines =~~= processed);
                    assert forall|k: Seq<char>|
                        map.spec_get(k) == spec_lines_lookup(all_lines, k) by {
                        assert(map.spec_get(k) == spec_lines_lookup(processed, k));
                    }
                }
                break;
            },
        }
    }
    map
}

} // verus!
