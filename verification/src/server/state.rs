use vstd::prelude::*;

use crate::config::Config;
use crate::devices::TapoDevice;

verus! {

/// Whether some device in the list carries the given name.
pub open spec fn contains_name(ds: Seq<TapoDevice>, name: Seq<char>) -> bool {
    exists|i: int| 0 <= i < ds.len() && ds[i].spec_conn_infos().name@ == name
}

/// Keeps, for each configured name, only the device of its last occurrence,
/// in order of last occurrence. A well-formed configuration names each
/// device once, and then this keeps every device as it is.
pub open spec fn spec_dedup(ds: Seq<TapoDevice>) -> Seq<TapoDevice>
    decreases ds.len(),
{
    if ds.len() == 0 {
        Seq::empty()
    } else if contains_name(ds.skip(1), ds[0].spec_conn_infos().name@) {
        spec_dedup(ds.skip(1))
    } else {
        seq![ds[0]] + spec_dedup(ds.skip(1))
    }
}

/// A name resolves in the deduplicated list exactly when it resolves in the
/// input: rebuilding a registry keeps every configured name and drops every
/// other, so after a reload that removes a device, its name resolves to
/// nothing, while every retained name still resolves.
pub proof fn lemma_dedup_names(ds: Seq<TapoDevice>, name: Seq<char>)
    ensures
        contains_name(spec_dedup(ds), name) <==> contains_name(ds, name),
    decreases ds.len(),
{
    if ds.len() > 0 {
        lemma_dedup_names(ds.skip(1), name);
        let first = ds[0].spec_conn_infos().name@;
        if contains_name(ds.skip(1), first) {
            if contains_name(ds, name) && !contains_name(ds.skip(1), name) {
                let i = choose|i: int|
                    0 <= i < ds.len() && ds[i].spec_conn_infos().name@ == name;
                if i > 0 {
                    assert(ds.skip(1)[i - 1] == ds[i]);
                    assert(contains_name(ds.skip(1), name));
                }
            }
        } else {
            let tail = seq![ds[0]] + spec_dedup(ds.skip(1));
            if contains_name(ds, name) {
                let i = choose|i: int|
                    0 <= i < ds.len() && ds[i].spec_conn_infos().name@ == name;
                if i == 0 {
                    assert(tail[0] == ds[0]);
                } else {
                    assert(ds.skip(1)[i - 1] == ds[i]);
                    assert(contains_name(ds.skip(1), name));
                    let j = choose|j: int|
                        0 <= j < spec_dedup(ds.skip(1)).len() && spec_dedup(ds.skip(1))[j]
                            .spec_conn_infos().name@ == name;
                    assert(tail[j + 1] == spec_dedup(ds.skip(1))[j]);
                }
            }
            if contains_name(tail, name) {
                let i = choose|i: int|
                    0 <= i < tail.len() && tail[i].spec_conn_infos().name@ == name;
                if i == 0 {
                    assert(ds[0].spec_conn_infos().name@ == name);
                } else {
                    assert(tail[i] == spec_dedup(ds.skip(1))[i - 1]);
                    assert(contains_name(spec_dedup(ds.skip(1)), name));
                    let j = choose|j: int|
                        0 <= j < ds.skip(1).len() && ds.skip(1)[j].spec_conn_infos().name@
                            == name;
                    assert(ds[j + 1] == ds.skip(1)[j]);
                }
            }
        }
    }
}

/// Device names are unique in a deduplicated list.
pub proof fn lemma_dedup_unique(ds: Seq<TapoDevice>)
    ensures
        forall|i: int, j: int|
            0 <= i < j < spec_dedup(ds).len() ==> (#[trigger] spec_dedup(ds)[i]).spec_conn_infos().name@
                != (#[trigger] spec_dedup(ds)[j]).spec_conn_infos().name@,
    decreases ds.len(),
{
    if ds.len() > 0 {
        lemma_dedup_unique(ds.skip(1));
        let first = ds[0].spec_conn_infos().name@;
        if !contains_name(ds.skip(1), first) {
            lemma_dedup_names(ds.skip(1), first);
            let out = seq![ds[0]] + spec_dedup(ds.skip(1));
            assert forall|i: int, j: int|
                0 <= i < j < out.len() implies (#[trigger] out[i]).spec_conn_infos().name@
                != (#[trigger] out[j]).spec_conn_infos().name@ by {
                if i == 0 {
                    assert(out[j] == spec_dedup(ds.skip(1))[j - 1]);
                    if out[j].spec_conn_infos().name@ == first {
                        assert(contains_name(spec_dedup(ds.skip(1)), first));
                    }
                } else {
                    assert(out[i] == spec_dedup(ds.skip(1))[i - 1]);
                    assert(out[j] == spec_dedup(ds.skip(1))[j - 1]);
                }
            }
        }
    }
}

/// One generation of the gateway's state: the configuration as loaded and
/// the managed devices built from it, resolvable by name. A reload builds a
/// whole new generation and swaps it in atomically; requests holding the old
/// generation run to completion against it.
///
/// Devices of a new generation start disconnected; a bulk pre-warm pass may
/// then connect them opportunistically, so a reload reconnects retained
/// devices rather than carrying old connections over.
pub struct LoadedConfig {
    pub config: Config,
    pub devices: Vec<TapoDevice>,
}

impl LoadedConfig {
    /// Registry invariant: no two devices share a name.
    pub open spec fn wf(&self) -> bool {
        forall|i: int, j: int|
            0 <= i < j < self.devices@.len() ==> (#[trigger] self.devices@[i]).spec_conn_infos().name@
                != (#[trigger] self.devices@[j]).spec_conn_infos().name@
    }

    /// Builds one generation, keying the devices by name; of devices sharing
    /// a name, the last configured wins.
    pub fn new(config: Config, devices: Vec<TapoDevice>) -> (r: Self)
        ensures
            r.config == config,
            r.devices@ == spec_dedup(devices@),
            r.wf(),
    {
        let ghost input = devices@;
        let mut out: Vec<TapoDevice> = Vec::new();
        let mut i: usize = devices.len();
        // Walk from the back so that the last occurrence of a name is the
        // one kept, then the earlier ones are dropped.
        while i > 0
            invariant
                0 <= i <= input.len(),
                input == devices@,
                out@ == spec_dedup(input.skip(i as int)),
            decreases i,
        {
            i -= 1;
            let name = &devices[i].conn_infos().name;
            let mut seen = false;
            let mut j: usize = i + 1;
            while j < devices.len()
                invariant
                    i + 1 <= j <= input.len(),
                    input == devices@,
                    i < input.len(),
                    seen <==> exists|m: int|
                        i < m < j && input[m].spec_conn_infos().name@ == name@,
                    name@ == input[i as int].spec_conn_infos().name@,
                decreases input.len() - j,
            {
                if crate::server::text::string_eq(
                    devices[j].conn_infos().name.as_str(),
                    name.as_str(),
                ) {
                    seen = true;
                }
                j += 1;
            }
            proof {
                if seen {
                    let m = choose|m: int|
                        i < m < input.len() && input[m].spec_conn_infos().name@ == name@;
                    assert(input.skip(i as int)[m - i] == input[m]);
                    assert(contains_name(input.skip(i + 1), name@)) by {
                        assert(input.skip(i + 1)[m - i - 1] == input[m]);
                    }
                } else {
                    if contains_name(input.skip(i + 1), name@) {
                        let m = choose|m: int|
                            0 <= m < input.skip(i + 1).len() && (#[trigger] input.skip(i + 1)[m])
                                .spec_conn_infos().name@ == name@;
                        assert(input.skip(i + 1)[m] == input[m + i + 1]);
                    }
                }
                assert(input.skip(i as int).skip(1) =~= input.skip(i + 1));
                assert(input.skip(i as int)[0] == input[i as int]);
            }
            if !seen {
                out.insert(0, devices[i].clone_device());
                proof {
                    assert(out@ =~= seq![input[i as int]] + spec_dedup(input.skip(i + 1)));
                }
            }
        }
        proof {
            assert(input.skip(0) =~= input);
            lemma_dedup_unique(input);
        }
        LoadedConfig { config, devices: out }
    }

    /// The reload route's response body: plain acknowledgment on success,
    /// the failure's text otherwise.
    pub fn reload_response(outcome: Result<(), String>) -> (r: String)
        ensures
            match outcome {
                Ok(()) => r@ == "OK"@,
                Err(msg) => r@ == "Error: "@ + msg@,
            },
    {
        match outcome {
            Ok(()) => String::from_str("OK"),
            Err(msg) => String::from_str("Error: ").concat(msg.as_str()),
        }
    }

    /// Exec check of the registry invariant, for callers outside the
    /// library that must test it rather than prove it.
    pub fn names_unique(&self) -> (r: bool)
        ensures
            r == self.wf(),
    {
        let mut i: usize = 0;
        while i < self.devices.len()
            invariant
                0 <= i <= self.devices@.len(),
                forall|a: int, b: int|
                    0 <= a < b < self.devices@.len() && a < i
                        ==> (#[trigger] self.devices@[a]).spec_conn_infos().name@
                        != (#[trigger] self.devices@[b]).spec_conn_infos().name@,
            decreases self.devices@.len() - i,
        {
            let mut j: usize = i + 1;
            while j < self.devices.len()
                invariant
                    i < j <= self.devices@.len(),
                    i < self.devices@.len(),
                    forall|b: int|
                        i < b < j ==> (#[trigger] self.devices@[b]).spec_conn_infos().name@
                            != self.devices@[i as int].spec_conn_infos().name@,
                decreases self.devices@.len() - j,
            {
                if crate::server::text::string_eq(
                    self.devices[i].conn_infos().name.as_str(),
                    self.devices[j].conn_infos().name.as_str(),
                ) {
                    return false;
                }
                j += 1;
            }
            i += 1;
        }
        true
    }

    /// Resolves a device name in this generation: the unique device of that
    /// name, or nothing.
    pub fn find_device(&self, name: &str) -> (r: Option<usize>)
        ensures
            match r {
                Some(i) => i < self.devices@.len() && self.devices@[i as int].spec_conn_infos().name@
                    == name@,
                None => !contains_name(self.devices@, name@),
            },
    {
        let mut i: usize = 0;
        while i < self.devices.len()
            invariant
                0 <= i <= self.devices@.len(),
                forall|j: int|
                    0 <= j < i ==> (#[trigger] self.devices@[j]).spec_conn_infos().name@ != name@,
            decreases self.devices@.len() - i,
        {
            if crate::server::text::string_eq(self.devices[i].conn_infos().name.as_str(), name) {
                return Some(i);
            }
            i += 1;
        }
        None
    }

    /// The descriptors of this generation's devices, for the device listing.
    pub fn device_infos(&self) -> (r: Vec<crate::config::TapoConnectionInfos>)
        ensures
            r@.len() == self.devices@.len(),
            forall|i: int|
                0 <= i < r@.len() ==> #[trigger] r@[i] == self.devices@[i].spec_conn_infos(),
    {
        let mut out: Vec<crate::config::TapoConnectionInfos> = Vec::new();
        let mut i: usize = 0;
        while i < self.devices.len()
            invariant
                0 <= i <= self.devices@.len(),
                out@.len() == i,
                forall|j: int|
                    0 <= j < i ==> #[trigger] out@[j] == self.devices@[j].spec_conn_infos(),
            decreases self.devices@.len() - i,
        {
            out.push(self.devices[i].conn_infos().duplicate());
            i += 1;
        }
        out
    }
}

} // verus!
