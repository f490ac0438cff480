//! The registry of configured devices: built once, read-only afterwards.
use vstd::prelude::*;
use crate::device::Device;

verus! {

/// Whether some device in `devs` has the identifier `id`.
pub open spec fn has_id(devs: Seq<Device>, id: Seq<char>) -> bool {
    exists|i: int| 0 <= i < devs.len() && (#[trigger] devs[i]).id@ == id
}

/// No two devices in `devs` share an identifier.
pub open spec fn ids_unique(devs: Seq<Device>) -> bool {
    forall|i: int, j: int|
        0 <= i < devs.len() && 0 <= j < devs.len() && i != j ==> (#[trigger] devs[i]).id@
            != (#[trigger] devs[j]).id@
}

/// Why a configuration was refused.
#[derive(Clone, Debug, PartialEq, Eq)]
pub enum ConfigError {
    /// Two devices were configured with this identifier.
    DuplicateId(String),
}

/// The configured devices, in configuration order, with unique identifiers.
pub struct Registry {
    devices: Vec<Device>,
}

impl View for Registry {
    type V = Seq<Device>;

    closed spec fn view(&self) -> Seq<Device> {
        self.devices@
    }
}

impl Registry {
    #[verifier::type_invariant]
    spec fn inv(&self) -> bool {
        ids_unique(self.devices@)
    }

    /// Builds the registry from the configured devices, refusing an
    /// identifier that is used twice. The identifier reported is the first
    /// one, in configuration order, that repeats an earlier device's.
    pub fn new(devices: Vec<Device>) -> (r: Result<Registry, ConfigError>)
        ensures
            r is Ok <==> ids_unique(devices@),
            r matches Ok(reg) ==> reg@ == devices@,
            r matches Err(ConfigError::DuplicateId(id)) ==> exists|j: int|
                0 <= j < devices@.len() && (#[trigger] devices@[j]).id@ == id@ && ids_unique(
                    devices@.take(j),
                ) && has_id(devices@.take(j), id@),
    {
        let n = devices.len();
        let mut j: usize = 0;
        while j < n
            invariant
                n == devices@.len(),
                j <= n,
                ids_unique(devices@.take(j as int)),
            decreases n - j,
        {
            let mut k: usize = 0;
            while k < j
                invariant
                    n == devices@.len(),
                    k <= j < n,
                    ids_unique(devices@.take(j as int)),
                    forall|m: int| 0 <= m < k ==> devices@[m].id@ != devices@[j as int].id@,
                decreases j - k,
            {
                if devices[k].id == devices[j].id {
                    let id = devices[j].id.clone();
                    proof {
                        let t = devices@.take(j as int);
                        assert(t[k as int] == devices@[k as int]);
                        assert(has_id(t, id@));
                        assert(!ids_unique(devices@)) by {
                            assert(devices@[k as int].id@ == devices@[j as int].id@);
                        }
                    }
                    return Err(ConfigError::DuplicateId(id));
                }
                k = k + 1;
            }
            proof {
                let t = devices@.take(j + 1);
                assert forall|a: int, b: int|
                    0 <= a < t.len() && 0 <= b < t.len() && a != b implies (#[trigger] t[a]).id@
                        != (#[trigger] t[b]).id@ by {
                    if a < j && b < j {
                        assert(t[a] == devices@.take(j as int)[a]);
                        assert(t[b] == devices@.take(j as int)[b]);
                    }
                }
            }
            j = j + 1;
        }
        assert(devices@.take(n as int) =~= devices@);
        Ok(Registry { devices })
    }

    /// The device configured with identifier `id`, or `None` where no device
    /// has it. Identifiers are unique, so there is at most one.
    pub fn resolve(&self, id: &str) -> (r: Option<&Device>)
        ensures
            r is Some <==> has_id(self@, id@),
            r matches Some(d) ==> exists|i: int|
                0 <= i < self@.len() && #[trigger] self@[i] == *d && d.id@ == id@,
            forall|i: int, j: int|
                0 <= i < self@.len() && 0 <= j < self@.len() && (#[trigger] self@[i]).id@ == id@
                    && (#[trigger] self@[j]).id@ == id@ ==> i == j,
    {
        proof {
            use_type_invariant(self);
            assert(self@ == self.devices@);
            assert(ids_unique(self@));
        }
        let n = self.devices.len();
        let mut i: usize = 0;
        while i < n
            invariant
                n == self.devices@.len(),
                i <= n,
                self@ == self.devices@,
                ids_unique(self@),
                forall|m: int| 0 <= m < i ==> self.devices@[m].id@ != id@,
            decreases n - i,
        {
            if crate::text::same_text(self.devices[i].id.as_str(), id) {
                return Some(&self.devices[i]);
            }
            i = i + 1;
        }
        None
    }

    /// The devices in configuration order.
    pub fn devices(&self) -> (r: &Vec<Device>)
        ensures
            r@ == self@,
    {
        &self.devices
    }

}

} // verus!
