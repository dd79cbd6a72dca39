use vstd::prelude::*;

use crate::server::snapshot::{
    is_alnum_char, parse_snapshot, snapshot_json_of, spec_parse, spec_snapshot, token_chars_wf,
    tokens_wf,
};

verus! {

/// A generated token: exactly 31 letters and digits, drawn uniformly from
/// the 62-character alphanumeric alphabet.
pub open spec fn token_wf(t: Seq<char>) -> bool {
    t.len() == 31 && token_chars_wf(t)
}

#[verifier::external_type_specification]
#[verifier::external_body]
pub struct ExThreadRng(rand::rngs::ThreadRng);

/// Relies on rand::rng: a handle to the thread-local generator. Nothing is
/// assumed of the values it will produce.
#[verifier::external_body]
fn acquire_rng() -> rand::rngs::ThreadRng {
    rand::rng()
}

/// Relies on Alphanumeric's Distribution<u8>: each sample is one byte drawn
/// uniformly from the 62-byte set of ASCII digits and letters. Being random,
/// nothing more is assumed of which byte comes back.
#[verifier::external_body]
fn sample_alphanumeric(rng: &mut rand::rngs::ThreadRng) -> (b: u8)
    ensures
        is_alnum_char(b as char),
{
    rand::Rng::sample(rng, rand::distr::Alphanumeric)
}

/// Relies on String::push: appends one character at the end.
#[verifier::external_body]
fn push_char(s: &mut String, c: char)
    ensures
        final(s)@ == old(s)@.push(c),
{
    s.push(c);
}

/// A bearer session. It carries no attributes beyond its existence; the
/// token that names it is the key of the store.
#[derive(Clone, Debug)]
pub struct Session {}

/// Query parameters of the device-session refresh route.
pub struct RefreshDeviceSessionParams {
    pub device: String,
}

/// The gateway's bearer-session store: the set of issued tokens, in issue
/// order. Every mutation is snapshotted to disk by the surrounding process
/// before the new token is acknowledged to the caller.
pub struct Sessions {
    tokens: Vec<String>,
}

impl Sessions {
    /// The stored tokens, in issue order.
    pub closed spec fn spec_tokens(&self) -> Seq<Seq<char>> {
        self.tokens.deep_view()
    }

    /// Store invariant: tokens are nonempty alphanumeric text, no two alike.
    pub open spec fn wf(&self) -> bool {
        tokens_wf(self.spec_tokens())
    }

    /// Builds the store from the persisted snapshot, or empty when no
    /// snapshot file exists yet. Rejects text that is not a well-formed
    /// snapshot.
    pub fn create(contents: Option<&str>) -> (r: Result<Sessions, String>)
        ensures
            match r {
                Ok(s) => {
                    &&& s.wf()
                    &&& match contents {
                        None => s.spec_tokens() == Seq::<Seq<char>>::empty(),
                        Some(text) => spec_parse(text@) == Some(s.spec_tokens()),
                    }
                },
                Err(msg) => {
                    &&& contents is Some
                    &&& spec_parse(contents->0@) is None
                    &&& msg@ == "Failed to parse sessions file"@
                },
            },
    {
        match contents {
            None => {
                let s = Sessions { tokens: Vec::new() };
                proof {
                    assert(s.spec_tokens() =~= Seq::<Seq<char>>::empty());
                }
                Ok(s)
            },
            Some(text) => {
                match parse_snapshot(text) {
                    Some(tokens) => {
                        let s = Sessions { tokens };
                        proof {
                            lemma_parsed_tokens_wf(text@, s.spec_tokens());
                        }
                        Ok(s)
                    },
                    None => Err(String::from_str("Failed to parse sessions file")),
                }
            },
        }
    }

    /// Pure lookup of a bearer token: the session exists or it does not; no
    /// expiry and no revocation.
    pub fn get(&self, id: &str) -> (r: Option<Session>)
        ensures
            r is Some <==> self.spec_tokens().contains(id@),
    {
        let mut i: usize = 0;
        while i < self.tokens.len()
            invariant
                0 <= i <= self.tokens.len(),
                forall|j: int| 0 <= j < i ==> self.tokens@[j]@ != id@,
            decreases self.tokens.len() - i,
        {
            if crate::server::text::string_eq(self.tokens[i].as_str(), id) {
                proof {
                    assert(self.spec_tokens()[i as int] == id@);
                }
                return Some(Session {});
            }
            i += 1;
        }
        proof {
            assert(forall|j: int|
                0 <= j < self.spec_tokens().len() ==> self.spec_tokens()[j] != id@);
        }
        None
    }

    /// Generates one candidate token: 31 characters sampled from the
    /// alphanumeric alphabet.
    fn gen_session_id() -> (r: String)
        ensures
            token_wf(r@),
    {
        let mut rng = acquire_rng();
        let mut out = String::new();
        let mut i: usize = 0;
        while i < 31
            invariant
                0 <= i <= 31,
                out@.len() == i,
                forall|j: int| 0 <= j < i ==> is_alnum_char(#[trigger] out@[j]),
            decreases 31 - i,
        {
            let b = sample_alphanumeric(&mut rng);
            push_char(&mut out, b as char);
            i += 1;
        }
        out
    }

    /// Records a token that is not yet in the table; fails closed, changing
    /// nothing, if the token is already present.
    pub fn insert_token(&mut self, id: String) -> (r: Result<(), String>)
        requires
            old(self).wf(),
            token_chars_wf(id@),
        ensures
            final(self).wf(),
            old(self).spec_tokens().contains(id@) ==> {
                &&& r is Err
                &&& *final(self) == *old(self)
                &&& r->Err_0@ == "A session already exists with the provided ID!"@
            },
            !old(self).spec_tokens().contains(id@) ==> {
                &&& r is Ok
                &&& final(self).spec_tokens() == old(self).spec_tokens().push(id@)
            },
    {
        let ghost idview = id@;
        let mut present = false;
        let mut i: usize = 0;
        while i < self.tokens.len()
            invariant
                0 <= i <= self.tokens.len(),
                present <==> exists|j: int| 0 <= j < i && self.tokens@[j]@ == idview,
                idview == id@,
            decreases self.tokens.len() - i,
        {
            if crate::server::text::string_eq(self.tokens[i].as_str(), id.as_str()) {
                present = true;
            }
            i += 1;
        }
        proof {
            if present {
                let j = choose|j: int|
                    0 <= j < self.tokens@.len() && self.tokens@[j]@ == idview;
                assert(self.spec_tokens()[j] == idview);
            } else {
                assert forall|m: int|
                    0 <= m < self.spec_tokens().len() implies self.spec_tokens()[m]
                    != idview by {
                    assert(self.tokens@[m]@ != idview);
                }
            }
            assert(present <==> self.spec_tokens().contains(idview));
        }
        if present {
            Err(String::from_str("A session already exists with the provided ID!"))
        } else {
            self.tokens.push(id);
            proof {
                assert(self.spec_tokens() =~= old(self).spec_tokens().push(idview));
            }
            Ok(())
        }
    }

    /// Issues a new bearer token: generates a random candidate, checks it
    /// against the existing ids, and records it only when it is fresh. A
    /// collision fails closed without overwriting. Whatever the generator
    /// produced, a token handed back is fresh, well formed, and now — and
    /// only now — part of the table.
    pub fn insert(&mut self) -> (r: Result<String, String>)
        requires
            old(self).wf(),
        ensures
            final(self).wf(),
            match r {
                Ok(id) => {
                    &&& token_wf(id@)
                    &&& !old(self).spec_tokens().contains(id@)
                    &&& final(self).spec_tokens() == old(self).spec_tokens().push(id@)
                },
                Err(msg) => {
                    &&& *final(self) == *old(self)
                    &&& msg@ == "A session already exists with the provided ID!"@
                },
            },
    {
        let id = Self::gen_session_id();
        let ghost idview = id@;
        let out = id.clone();
        match self.insert_token(id) {
            Ok(()) => Ok(out),
            Err(msg) => Err(msg),
        }
    }

    /// The snapshot text to persist after a mutation: the whole table is
    /// rewritten on each change.
    pub fn snapshot_json(&self) -> (r: String)
        ensures
            r@ == spec_snapshot(self.spec_tokens()),
    {
        snapshot_json_of(&self.tokens)
    }
}

/// Resolves the device a session-refresh request names, before any network
/// work: the unique device of that name, or a server error naming the
/// unknown device.
pub fn plan_refresh(
    loaded: &crate::server::state::LoadedConfig,
    params: &RefreshDeviceSessionParams,
) -> (r: crate::server::errors::ApiResult<usize>)
    ensures
        match r {
            Ok(i) => i < loaded.devices@.len() && loaded.devices@[i as int].spec_conn_infos().name@
                == params.device@,
            Err(e) => {
                &&& !crate::server::state::contains_name(loaded.devices@, params.device@)
                &&& e.spec_code() == crate::server::errors::STATUS_INTERNAL_SERVER_ERROR
                &&& e.spec_message() == "Unkown device: "@ + params.device@
            },
        },
{
    match loaded.find_device(params.device.as_str()) {
        Some(i) => Ok(i),
        None => Err(
            crate::server::errors::ApiError::new(
                crate::server::errors::STATUS_INTERNAL_SERVER_ERROR,
                String::from_str("Unkown device: ").concat(params.device.as_str()),
            ),
        ),
    }
}

/// Maps the outcome of a device-session refresh to the route's response: an
/// upstream failure is surfaced as a server error; the device's cached
/// connection is left as it was either way.
pub fn refresh_result(outcome: Result<(), String>) -> (r: crate::server::errors::ApiResult<()>)
    ensures
        match r {
            Ok(()) => outcome is Ok,
            Err(e) => {
                &&& outcome is Err
                &&& e.spec_code() == crate::server::errors::STATUS_INTERNAL_SERVER_ERROR
                &&& e.spec_message() == "Failed to refresh device's session"@
            },
        },
{
    match outcome {
        Ok(()) => Ok(()),
        Err(_) => Err(
            crate::server::errors::ApiError::new(
                crate::server::errors::STATUS_INTERNAL_SERVER_ERROR,
                String::from_str("Failed to refresh device's session"),
            ),
        ),
    }
}

/// A table read back from a well-formed snapshot is itself well formed.
proof fn lemma_parsed_tokens_wf(s: Seq<char>, ts: Seq<Seq<char>>)
    requires
        spec_parse(s) == Some(ts),
    ensures
        tokens_wf(ts),
{
    if s.len() == 2 && s[1] == '}' {
    } else {
        lemma_entry_list_tokens_wf(s.skip(1), ts);
    }
}

/// Helper for `lemma_parsed_tokens_wf`, by induction over the entry list.
proof fn lemma_entry_list_tokens_wf(t: Seq<char>, ts: Seq<Seq<char>>)
    requires
        crate::server::snapshot::spec_parse_entry_list(t) == Some(ts),
    ensures
        tokens_wf(ts),
    decreases t.len(),
{
    let klen = crate::server::snapshot::alnum_run_len(t, 1) as int;
    let pos = 1 + klen;
    let k = t.subrange(1, pos);
    lemma_alnum_run_chars(t, 1);
    if t[pos + 4] == '}' {
        assert(ts =~= seq![k]);
    } else {
        let ks = crate::server::snapshot::spec_parse_entry_list(t.skip(pos + 5))->0;
        lemma_entry_list_tokens_wf(t.skip(pos + 5), ks);
        assert(ts =~= seq![k] + ks);
        assert(forall|i: int| 0 <= i < ks.len() ==> ks[i] == ts[i + 1]);
        assert(forall|j: int| 1 <= j < ts.len() ==> ts[0] != #[trigger] ts[j]) by {
            assert(!ks.contains(k));
            assert(forall|j: int| 1 <= j < ts.len() ==> ks[j - 1] == #[trigger] ts[j]);
        }
    }
}

/// The characters counted by an alphanumeric run are alphanumeric.
proof fn lemma_alnum_run_chars(t: Seq<char>, i: int)
    ensures
        forall|j: int|
            i <= j < i + crate::server::snapshot::alnum_run_len(t, i) ==> is_alnum_char(
                #[trigger] t[j],
            ),
    decreases t.len() - i,
{
    if 0 <= i < t.len() && is_alnum_char(t[i]) {
        lemma_alnum_run_chars(t, i + 1);
    }
}

/// No two successful issues hand out the same token: the first issue puts
/// its token into the table, and the second issues only a token that is not
/// yet there.
pub proof fn lemma_issued_tokens_distinct(
    t0: Seq<Seq<char>>,
    t1: Seq<Seq<char>>,
    a: Seq<char>,
    b: Seq<char>,
)
    requires
        !t0.contains(a),
        t1 == t0.push(a),
        !t1.contains(b),
    ensures
        a != b,
{
    assert(t1[t0.len() as int] == a);
    assert(t1.contains(a));
}

} // verus!
