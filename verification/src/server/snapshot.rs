use vstd::prelude::*;

verus! {

/// An ASCII letter or digit: the only characters a session token may hold.
pub open spec fn is_alnum_char(c: char) -> bool {
    (48 <= c as u32 && c as u32 <= 57) || (65 <= c as u32 && c as u32 <= 90) || (97 <= c as u32
        && c as u32 <= 122)
}

/// A storable token: nonempty, letters and digits only.
pub open spec fn token_chars_wf(t: Seq<char>) -> bool {
    t.len() >= 1 && forall|i: int| 0 <= i < t.len() ==> is_alnum_char(t[i])
}

/// A storable token table: storable tokens, no two alike.
pub open spec fn tokens_wf(ts: Seq<Seq<char>>) -> bool {
    &&& forall|i: int| 0 <= i < ts.len() ==> token_chars_wf(#[trigger] ts[i])
    &&& forall|i: int, j: int| 0 <= i < j < ts.len() ==> ts[i] != ts[j]
}

/// One snapshot entry: the token as a JSON key, mapped to an empty record.
pub open spec fn spec_entry(t: Seq<char>) -> Seq<char> {
    seq!['"'] + t + seq!['"', ':', '{', '}']
}

/// The comma-separated entry list of a snapshot.
pub open spec fn spec_entries(ts: Seq<Seq<char>>) -> Seq<char>
    decreases ts.len(),
{
    if ts.len() == 0 {
        Seq::empty()
    } else if ts.len() == 1 {
        spec_entry(ts[0])
    } else {
        spec_entry(ts[0]) + seq![','] + spec_entries(ts.skip(1))
    }
}

/// The on-disk snapshot of a token table: a compact JSON object mapping each
/// token to an empty record, in table order.
pub open spec fn spec_snapshot(ts: Seq<Seq<char>>) -> Seq<char> {
    seq!['{'] + spec_entries(ts) + seq!['}']
}

/// Length of the run of letters and digits starting at `i`.
pub open spec fn alnum_run_len(s: Seq<char>, i: int) -> nat
    decreases s.len() - i,
{
    if i < 0 || i >= s.len() {
        0
    } else if is_alnum_char(s[i]) {
        1 + alnum_run_len(s, i + 1)
    } else {
        0
    }
}

/// Parses the entry list of a snapshot, from just after the opening brace to
/// the end of the text. Accepts exactly the texts `spec_snapshot` produces
/// from a storable table; anything else, duplicate keys included, is
/// rejected.
pub open spec fn spec_parse_entry_list(t: Seq<char>) -> Option<Seq<Seq<char>>>
    decreases t.len(),
{
    if t.len() < 1 || t[0] != '"' {
        None
    } else {
        let klen = alnum_run_len(t, 1) as int;
        let pos = 1 + klen;
        if klen == 0 || t.len() < pos + 5 {
            None
        } else if t[pos] != '"' || t[pos + 1] != ':' || t[pos + 2] != '{' || t[pos + 3] != '}' {
            None
        } else {
            let k = t.subrange(1, pos);
            if t[pos + 4] == '}' {
                if t.len() == pos + 5 {
                    Some(seq![k])
                } else {
                    None
                }
            } else if t[pos + 4] == ',' {
                match spec_parse_entry_list(t.skip(pos + 5)) {
                    Some(ks) => if ks.contains(k) {
                        None
                    } else {
                        Some(seq![k] + ks)
                    },
                    None => None,
                }
            } else {
                None
            }
        }
    }
}

/// Parses a snapshot text back into its token table; `None` rejects the
/// text.
pub open spec fn spec_parse(s: Seq<char>) -> Option<Seq<Seq<char>>> {
    if s.len() < 2 || s[0] != '{' {
        None
    } else if s.len() == 2 && s[1] == '}' {
        Some(Seq::empty())
    } else {
        spec_parse_entry_list(s.skip(1))
    }
}

/// Appending a token to a table extends its entry list by a separator (when
/// the table was nonempty) and the token's entry.
pub proof fn lemma_entries_push(ts: Seq<Seq<char>>, k: Seq<char>)
    ensures
        spec_entries(ts.push(k)) == spec_entries(ts) + (if ts.len() == 0 {
            Seq::<char>::empty()
        } else {
            seq![',']
        }) + spec_entry(k),
    decreases ts.len(),
{
    if ts.len() == 0 {
        assert(ts.push(k) =~= seq![k]);
        assert(spec_entries(seq![k]) == spec_entry(k));
        assert(spec_entries(ts) + Seq::<char>::empty() + spec_entry(k) =~= spec_entry(k));
    } else {
        lemma_entries_push(ts.skip(1), k);
        assert(ts.push(k).skip(1) =~= ts.skip(1).push(k));
        assert(ts.push(k)[0] == ts[0]);
        if ts.len() == 1 {
            assert(spec_entries(ts.push(k)) == spec_entry(ts[0]) + seq![','] + spec_entries(
                ts.skip(1).push(k),
            ));
            assert(ts.skip(1).push(k) =~= seq![k]);
            assert(spec_entries(ts.push(k)) =~= spec_entries(ts) + seq![','] + spec_entry(k));
        } else {
            assert(spec_entries(ts.push(k)) =~= spec_entries(ts) + seq![','] + spec_entry(k));
        }
    }
}

/// A run of letters and digits stopped by the end of the text or a
/// non-alphanumeric character has exactly the stated length.
pub proof fn lemma_alnum_run(s: Seq<char>, i: int, m: nat)
    requires
        0 <= i,
        i + m <= s.len(),
        forall|j: int| i <= j < i + m ==> is_alnum_char(#[trigger] s[j]),
        i + m == s.len() || !is_alnum_char(s[i + m]),
    ensures
        alnum_run_len(s, i) == m,
    decreases m,
{
    if m > 0 {
        lemma_alnum_run(s, i + 1, (m - 1) as nat);
    }
}

/// Parsing inverts serialization over the entry list: the snapshot of a
/// storable table parses back to exactly that table.
proof fn lemma_entries_roundtrip(ts: Seq<Seq<char>>)
    requires
        ts.len() >= 1,
        tokens_wf(ts),
    ensures
        spec_parse_entry_list(spec_entries(ts) + seq!['}']) == Some(ts),
    decreases ts.len(),
{
    let t = spec_entries(ts) + seq!['}'];
    let k = ts[0];
    let klen = k.len() as int;
    let pos = 1 + klen;
    assert(token_chars_wf(k));
    if ts.len() == 1 {
        assert(t =~= spec_entry(k) + seq!['}']);
        assert(forall|j: int| 1 <= j < 1 + klen ==> is_alnum_char(#[trigger] t[j]));
        assert(t[pos] == '"');
        assert(!is_alnum_char('"'));
        lemma_alnum_run(t, 1, k.len());
        assert(t.subrange(1, pos) =~= k);
        assert(t[pos + 4] == '}');
        assert(t.len() == pos + 5);
        assert(Some(seq![k]) =~= Some(ts)) by {
            assert(seq![k] =~= ts);
        }
    } else {
        let rest = ts.skip(1);
        assert(t =~= spec_entry(k) + seq![','] + (spec_entries(rest) + seq!['}']));
        assert(forall|j: int| 1 <= j < 1 + klen ==> is_alnum_char(#[trigger] t[j]));
        assert(t[pos] == '"');
        assert(!is_alnum_char('"'));
        lemma_alnum_run(t, 1, k.len());
        assert(t.subrange(1, pos) =~= k);
        assert(t[pos + 4] == ',');
        assert(t.skip(pos + 5) =~= spec_entries(rest) + seq!['}']);
        assert(rest.len() >= 1);
        assert(tokens_wf(rest)) by {
            assert(forall|i: int| 0 <= i < rest.len() ==> rest[i] == ts[i + 1]);
        }
        lemma_entries_roundtrip(rest);
        assert(!rest.contains(k)) by {
            assert(forall|i: int| 0 <= i < rest.len() ==> rest[i] == ts[i + 1] && ts[i + 1]
                != ts[0]);
        }
        assert(seq![k] + rest =~= ts);
    }
}

/// The snapshot of any storable token table parses back to exactly that
/// table: a table persisted before a process stops is the table a later
/// process starts from, given the same snapshot text.
pub proof fn lemma_snapshot_roundtrip(ts: Seq<Seq<char>>)
    requires
        tokens_wf(ts),
    ensures
        spec_parse(spec_snapshot(ts)) == Some(ts),
{
    let s = spec_snapshot(ts);
    if ts.len() == 0 {
        assert(s =~= seq!['{', '}']);
        assert(spec_parse(s) == Some(Seq::<Seq<char>>::empty()));
        assert(Seq::<Seq<char>>::empty() =~= ts);
    } else {
        assert(spec_entries(ts).len() >= 1) by {
            if ts.len() == 1 {
                assert(spec_entries(ts) == spec_entry(ts[0]));
            }
        }
        assert(s.len() > 2);
        assert(s[0] == '{');
        assert(s.skip(1) =~= spec_entries(ts) + seq!['}']);
        lemma_entries_roundtrip(ts);
    }
}

/// Exec check that a character is an ASCII letter or digit.
pub fn is_alnum(c: char) -> (r: bool)
    ensures
        r == is_alnum_char(c),
{
    let n = c as u32;
    (48 <= n && n <= 57) || (65 <= n && n <= 90) || (97 <= n && n <= 122)
}

/// Whether one of the strings has the given text.
fn contains_string(v: &Vec<String>, key: &String) -> (r: bool)
    ensures
        r == v.deep_view().contains(key@),
{
    let mut i: usize = 0;
    while i < v.len()
        invariant
            0 <= i <= v.len(),
            forall|j: int| 0 <= j < i ==> v@[j]@ != key@,
        decreases v.len() - i,
    {
        if crate::server::text::string_eq(v[i].as_str(), key.as_str()) {
            proof {
                assert(v.deep_view()[i as int] == key@);
            }
            return true;
        }
        i += 1;
    }
    proof {
        assert(forall|j: int| 0 <= j < v.deep_view().len() ==> v.deep_view()[j] != key@);
    }
    false
}

/// Parses the entry list of a snapshot; mirrors `spec_parse_entry_list`.
fn parse_entry_list(t: &str) -> (r: Option<Vec<String>>)
    ensures
        match r {
            Some(v) => spec_parse_entry_list(t@) == Some(v.deep_view()),
            None => spec_parse_entry_list(t@) is None,
        },
    decreases t@.len(),
{
    let n = t.unicode_len();
    if n < 1 || t.get_char(0) != '"' {
        return None;
    }
    let mut j: usize = 1;
    while j < n && is_alnum(t.get_char(j))
        invariant
            1 <= j <= n,
            n == t@.len(),
            forall|m: int| 1 <= m < j ==> is_alnum_char(#[trigger] t@[m]),
        decreases n - j,
    {
        j += 1;
    }
    proof {
        lemma_alnum_run(t@, 1, (j - 1) as nat);
    }
    let klen = j - 1;
    let pos = j;
    if klen == 0 {
        return None;
    }
    if n - pos < 5 {
        return None;
    }
    if t.get_char(pos) != '"' || t.get_char(pos + 1) != ':' || t.get_char(pos + 2) != '{'
        || t.get_char(pos + 3) != '}' {
        return None;
    }
    let key = t.substring_char(1, pos).to_owned();
    let ghost kview = key@;
    let term = t.get_char(pos + 4);
    if term == '}' {
        if n - pos == 5 {
            let mut v: Vec<String> = Vec::new();
            v.push(key);
            proof {
                assert(v.deep_view() =~= seq![kview]);
            }
            Some(v)
        } else {
            None
        }
    } else if term == ',' {
        let rest = t.substring_char(pos + 5, n);
        match parse_entry_list(rest) {
            Some(ks) => {
                if contains_string(&ks, &key) {
                    None
                } else {
                    let mut v: Vec<String> = Vec::new();
                    v.push(key);
                    let mut i: usize = 0;
                    while i < ks.len()
                        invariant
                            0 <= i <= ks.len(),
                            v@.len() == i + 1,
                            v@[0]@ == kview,
                            forall|m: int| 0 <= m < i ==> v@[m + 1]@ == ks@[m]@,
                        decreases ks.len() - i,
                    {
                        v.push(ks[i].clone());
                        i += 1;
                    }
                    proof {
                        assert(v.deep_view() =~= seq![kview] + ks.deep_view());
                    }
                    Some(v)
                }
            },
            None => None,
        }
    } else {
        None
    }
}

/// Parses a snapshot text into its token table; mirrors `spec_parse`.
pub fn parse_snapshot(s: &str) -> (r: Option<Vec<String>>)
    ensures
        match r {
            Some(v) => spec_parse(s@) == Some(v.deep_view()),
            None => spec_parse(s@) is None,
        },
{
    let n = s.unicode_len();
    if n < 2 || s.get_char(0) != '{' {
        return None;
    }
    if n == 2 && s.get_char(1) == '}' {
        let v: Vec<String> = Vec::new();
        proof {
            assert(v.deep_view() =~= Seq::<Seq<char>>::empty());
        }
        return Some(v);
    }
    let rest = s.substring_char(1, n);
    proof {
        assert(rest@ =~= s@.skip(1));
    }
    parse_entry_list(rest)
}

/// Serializes a token table into its snapshot text; mirrors
/// `spec_snapshot`.
pub fn snapshot_json_of(tokens: &Vec<String>) -> (r: String)
    ensures
        r@ == spec_snapshot(tokens.deep_view()),
{
    let ghost dv = tokens.deep_view();
    let mut out = String::new();
    out.append("{");
    proof {
        reveal_strlit("{");
        assert(out@ =~= seq!['{'] + spec_entries(dv.take(0)));
    }
    let mut i: usize = 0;
    while i < tokens.len()
        invariant
            0 <= i <= tokens.len(),
            dv == tokens.deep_view(),
            out@ == seq!['{'] + spec_entries(dv.take(i as int)),
        decreases tokens.len() - i,
    {
        if i > 0 {
            out.append(",");
        }
        out.append("\"");
        out.append(tokens[i].as_str());
        out.append("\":{}");
        proof {
            reveal_strlit(",");
            reveal_strlit("\"");
            reveal_strlit("\":{}");
            lemma_entries_push(dv.take(i as int), dv[i as int]);
            assert(dv.take(i + 1) =~= dv.take(i as int).push(dv[i as int]));
            assert(dv[i as int] == tokens[i as int]@);
            assert(spec_entry(dv[i as int]) =~= seq!['"'] + tokens[i as int]@ + "\":{}"@);
            assert(out@ =~= seq!['{'] + spec_entries(dv.take(i + 1)));
        }
        i += 1;
    }
    out.append("}");
    proof {
        reveal_strlit("}");
        assert(dv.take(tokens.len() as int) =~= dv);
        assert(out@ =~= spec_snapshot(dv));
    }
    out
}

} // verus!
