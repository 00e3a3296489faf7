//! The state store: an in-memory row store over instances, port
//! reservations and boot components, with the uniqueness, foreign-key and
//! cascade guarantees the control plane relies on. The embedding
//! application persists and reloads it; all mutation goes through the
//! methods here.

use vstd::prelude::*;

use crate::errors::HypervisorError;
use crate::instance::{instance_ok, spec_is_active, state_eq, InstanceState, InstanceStatus};
use crate::strutil::str_eq;

verus! {

/// One port reservation row. `port` is the primary key.
pub struct PortRow {
    pub port: u16,
    pub instance_id: String,
    pub port_type: String,
}

/// One boot-component row, keyed by `(instance_id, component_type)`.
pub struct BootComponent {
    pub instance_id: String,
    pub component_type: String,
    pub file_path: String,
    pub sha256_hash: String,
}

/// Whether some instance row carries this name.
pub open spec fn has_name(s: Seq<InstanceState>, name: Seq<char>) -> bool {
    exists|i: int| 0 <= i < s.len() && #[trigger] s[i].name@ == name
}

/// Whether some instance row carries this id.
pub open spec fn has_id(s: Seq<InstanceState>, id: Seq<char>) -> bool {
    exists|i: int| 0 <= i < s.len() && #[trigger] s[i].id@ == id
}

/// Whether some reservation row carries this port number.
pub open spec fn has_port(ps: Seq<PortRow>, port: u16) -> bool {
    exists|i: int| 0 <= i < ps.len() && #[trigger] ps[i].port == port
}

/// Whether `p` is the RPC reservation row of instance `inst`.
pub open spec fn port_match(p: PortRow, inst: InstanceState) -> bool {
    p.port == inst.config.rpc_port && p.instance_id@ == inst.id@ && p.port_type@ == "rpc"@
}

/// Whether `ps` holds the RPC reservation row of instance `inst`.
pub open spec fn covered_one(ps: Seq<PortRow>, inst: InstanceState) -> bool {
    exists|j: int| 0 <= j < ps.len() && port_match(#[trigger] ps[j], inst)
}

/// A coverage witness survives when a prefix of the rows is kept.
proof fn lemma_covered_one_prefix(ps1: Seq<PortRow>, ps2: Seq<PortRow>, inst: InstanceState)
    requires
        covered_one(ps1, inst),
        ps1.len() <= ps2.len(),
        forall|j: int| 0 <= j < ps1.len() ==> ps2[j] == #[trigger] ps1[j],
    ensures
        covered_one(ps2, inst),
{
    let j = choose|j: int| 0 <= j < ps1.len() && port_match(#[trigger] ps1[j], inst);
    assert(port_match(ps2[j], inst));
}

/// A coverage witness survives when every row of this instance is retained.
proof fn lemma_covered_one_retained(ps1: Seq<PortRow>, ps2: Seq<PortRow>, inst: InstanceState)
    requires
        covered_one(ps1, inst),
        forall|m: int|
            0 <= m < ps1.len() && #[trigger] ps1[m].instance_id@ == inst.id@ ==> ps2.contains(
                ps1[m],
            ),
    ensures
        covered_one(ps2, inst),
{
    let j = choose|j: int| 0 <= j < ps1.len() && port_match(#[trigger] ps1[j], inst);
    assert(ps2.contains(ps1[j]));
    let k = choose|k: int| 0 <= k < ps2.len() && ps2[k] == ps1[j];
    assert(port_match(ps2[k], inst));
}

/// Law: in a well-formed store, every persisted instance records a PID
/// exactly while its status is Running or Stopping.
pub proof fn lemma_pid_iff_active(s: StateStore, i: int)
    requires
        s.wf(),
        0 <= i < s.instances@.len(),
    ensures
        s.instances@[i].vm_pid is Some <==> spec_is_active(s.instances@[i].status),
{
}

/// Law: in a covered store, every instance's RPC port has an identical row
/// in the reservation table — same port number, same instance, reserved as
/// the RPC forwarding.
pub proof fn lemma_rpc_port_covered(s: StateStore, i: int)
    requires
        s.covered(),
        0 <= i < s.instances@.len(),
    ensures
        exists|j: int|
            0 <= j < s.ports@.len() && port_match(#[trigger] s.ports@[j], s.instances@[i]),
{
    assert(covered_one(s.ports@, s.instances@[i]));
}

/// Two rows carrying the same name have the same index, when names are
/// pairwise distinct.
pub proof fn lemma_unique_name_idx(s: Seq<InstanceState>, i: int, j: int)
    requires
        forall|m: int, l: int| 0 <= m < l < s.len() ==> #[trigger] s[m].name@ != #[trigger] s[l].name@,
        0 <= i < s.len(),
        0 <= j < s.len(),
        s[i].name@ == s[j].name@,
    ensures
        i == j,
{
    if i < j {
        assert(s[i].name@ != s[j].name@);
    }
    if j < i {
        assert(s[j].name@ != s[i].name@);
    }
}

/// Whether some element of `r` is a copy of row `j` of `rows`.
pub open spec fn listed_copy(r: Seq<InstanceState>, rows: Seq<InstanceState>, j: int) -> bool {
    exists|i: int| 0 <= i < r.len() && state_eq(#[trigger] r[i], rows[j])
}

/// Whether element `i` of `r` is a copy of some row of `rows`.
pub open spec fn copies_row(r: Seq<InstanceState>, rows: Seq<InstanceState>, i: int) -> bool {
    exists|j: int| 0 <= j < rows.len() && state_eq(r[i], #[trigger] rows[j])
}

/// The row store.
pub struct StateStore {
    pub instances: Vec<InstanceState>,
    pub ports: Vec<PortRow>,
    pub components: Vec<BootComponent>,
}

impl StateStore {
    /// Well-formedness: unique names, ids, port numbers and component keys;
    /// foreign keys from ports and components into instances; and every
    /// instance row satisfying the per-row invariant.
    pub open spec fn wf(self) -> bool {
        &&& (forall|i: int, j: int|
            0 <= i < j < self.instances@.len() ==> #[trigger] self.instances@[i].name@
                != #[trigger] self.instances@[j].name@)
        &&& (forall|i: int, j: int|
            0 <= i < j < self.instances@.len() ==> #[trigger] self.instances@[i].id@
                != #[trigger] self.instances@[j].id@)
        &&& (forall|i: int|
            0 <= i < self.instances@.len() ==> instance_ok(#[trigger] self.instances@[i]))
        &&& (forall|i: int, j: int|
            0 <= i < j < self.ports@.len() ==> #[trigger] self.ports@[i].port
                != #[trigger] self.ports@[j].port)
        &&& (forall|i: int|
            0 <= i < self.ports@.len() ==> has_id(
                self.instances@,
                #[trigger] self.ports@[i].instance_id@,
            ))
        &&& (forall|i: int, j: int|
            0 <= i < j < self.components@.len() ==> !(#[trigger] self.components@[i].instance_id@
                == #[trigger] self.components@[j].instance_id@
                && self.components@[i].component_type@ == self.components@[j].component_type@))
        &&& (forall|i: int|
            0 <= i < self.components@.len() ==> has_id(
                self.instances@,
                #[trigger] self.components@[i].instance_id@,
            ))
    }

    /// Every instance's RPC port has an identical reservation row.
    pub open spec fn covered(self) -> bool {
        forall|i: int|
            0 <= i < self.instances@.len() ==> covered_one(
                self.ports@,
                #[trigger] self.instances@[i],
            )
    }

    /// An empty store.
    pub fn new() -> (r: Self)
        ensures
            r.wf(),
            r.covered(),
            r.instances@.len() == 0,
            r.ports@.len() == 0,
            r.components@.len() == 0,
    {
        StateStore { instances: Vec::new(), ports: Vec::new(), components: Vec::new() }
    }

    /// Checks well-formedness at run time, for a store rebuilt from outside
    /// persistence: true exactly when `wf()` holds.
    pub fn check_wf(&self) -> (r: bool)
        ensures
            r == self.wf(),
    {
        let n = self.instances.len();

        // Every row satisfies the per-row invariant.
        let mut i: usize = 0;
        while i < n
            invariant
                i <= n,
                n == self.instances@.len(),
                forall|a: int| 0 <= a < i ==> instance_ok(#[trigger] self.instances@[a]),
            decreases n - i,
        {
            let row = &self.instances[i];
            let pid_ok = row.vm_pid.is_some() == row.status.is_active();
            let tee_ok = !row.config.tee_mode || (row.config.expected_measurement.is_some()
                && row.config.ovmf_path.is_some());
            if !pid_ok || !tee_ok {
                proof {
                    assert(!instance_ok(self.instances@[i as int]));
                }
                return false;
            }
            i = i + 1;
        }

        // Names and ids are pairwise distinct.
        let mut a: usize = 0;
        while a < n
            invariant
                a <= n,
                n == self.instances@.len(),
                forall|x: int, y: int|
                    0 <= x < y < n && x < a ==> #[trigger] self.instances@[x].name@
                        != #[trigger] self.instances@[y].name@,
                forall|x: int, y: int|
                    0 <= x < y < n && x < a ==> #[trigger] self.instances@[x].id@
                        != #[trigger] self.instances@[y].id@,
            decreases n - a,
        {
            let mut b: usize = a + 1;
            while b < n
                invariant
                    a < b <= n,
                    n == self.instances@.len(),
                    forall|y: int|
                        a < y < b ==> #[trigger] self.instances@[y].name@
                            != self.instances@[a as int].name@,
                    forall|y: int|
                        a < y < b ==> #[trigger] self.instances@[y].id@
                            != self.instances@[a as int].id@,
                decreases n - b,
            {
                if str_eq(self.instances[a].name.as_str(), self.instances[b].name.as_str()) {
                    return false;
                }
                if str_eq(self.instances[a].id.as_str(), self.instances[b].id.as_str()) {
                    return false;
                }
                b = b + 1;
            }
            a = a + 1;
        }

        // Port numbers are pairwise distinct, and each reservation points at
        // an existing instance.
        let pn = self.ports.len();
        let mut p: usize = 0;
        while p < pn
            invariant
                p <= pn,
                pn == self.ports@.len(),
                forall|x: int, y: int|
                    0 <= x < y < pn && x < p ==> #[trigger] self.ports@[x].port
                        != #[trigger] self.ports@[y].port,
                forall|x: int|
                    0 <= x < p ==> has_id(self.instances@, #[trigger] self.ports@[x].instance_id@),
            decreases pn - p,
        {
            let mut q: usize = p + 1;
            while q < pn
                invariant
                    p < q <= pn,
                    pn == self.ports@.len(),
                    forall|y: int|
                        p < y < q ==> #[trigger] self.ports@[y].port
                            != self.ports@[p as int].port,
                decreases pn - q,
            {
                if self.ports[p].port == self.ports[q].port {
                    return false;
                }
                q = q + 1;
            }
            if self.find_id_idx(self.ports[p].instance_id.as_str()).is_none() {
                return false;
            }
            p = p + 1;
        }

        // Component keys are pairwise distinct, and each row points at an
        // existing instance.
        let cn = self.components.len();
        let mut c: usize = 0;
        while c < cn
            invariant
                c <= cn,
                cn == self.components@.len(),
                forall|x: int, y: int|
                    0 <= x < y < cn && x < c ==> !(#[trigger] self.components@[x].instance_id@
                        == #[trigger] self.components@[y].instance_id@
                        && self.components@[x].component_type@
                        == self.components@[y].component_type@),
                forall|x: int|
                    0 <= x < c ==> has_id(
                        self.instances@,
                        #[trigger] self.components@[x].instance_id@,
                    ),
            decreases cn - c,
        {
            let mut d: usize = c + 1;
            while d < cn
                invariant
                    c < d <= cn,
                    cn == self.components@.len(),
                    forall|y: int|
                        c < y < d ==> !(#[trigger] self.components@[y].instance_id@
                            == self.components@[c as int].instance_id@
                            && self.components@[y].component_type@
                            == self.components@[c as int].component_type@),
                decreases cn - d,
            {
                if str_eq(
                    self.components[c].instance_id.as_str(),
                    self.components[d].instance_id.as_str(),
                ) && str_eq(
                    self.components[c].component_type.as_str(),
                    self.components[d].component_type.as_str(),
                ) {
                    return false;
                }
                d = d + 1;
            }
            if self.find_id_idx(self.components[c].instance_id.as_str()).is_none() {
                return false;
            }
            c = c + 1;
        }

        true
    }

    /// Index of the instance row with this name, if any.
    fn find_name_idx(&self, name: &str) -> (r: Option<usize>)
        ensures
            match r {
                Some(i) => i < self.instances@.len() && self.instances@[i as int].name@ == name@,
                None => !has_name(self.instances@, name@),
            },
    {
        let n = self.instances.len();
        let mut i: usize = 0;
        while i < n
            invariant
                i <= n,
                n == self.instances@.len(),
                forall|j: int| 0 <= j < i ==> #[trigger] self.instances@[j].name@ != name@,
            decreases n - i,
        {
            if str_eq(self.instances[i].name.as_str(), name) {
                return Some(i);
            }
            i = i + 1;
        }
        None
    }

    /// Index of the instance row with this id, if any.
    fn find_id_idx(&self, id: &str) -> (r: Option<usize>)
        ensures
            match r {
                Some(i) => i < self.instances@.len() && self.instances@[i as int].id@ == id@,
                None => !has_id(self.instances@, id@),
            },
    {
        let n = self.instances.len();
        let mut i: usize = 0;
        while i < n
            invariant
                i <= n,
                n == self.instances@.len(),
                forall|j: int| 0 <= j < i ==> #[trigger] self.instances@[j].id@ != id@,
            decreases n - i,
        {
            if str_eq(self.instances[i].id.as_str(), id) {
                return Some(i);
            }
            i = i + 1;
        }
        None
    }

    /// Whether this port number is reserved.
    pub fn port_reserved(&self, port: u16) -> (r: bool)
        ensures
            r == has_port(self.ports@, port),
    {
        let n = self.ports.len();
        let mut i: usize = 0;
        while i < n
            invariant
                i <= n,
                n == self.ports@.len(),
                forall|j: int| 0 <= j < i ==> #[trigger] self.ports@[j].port != port,
            decreases n - i,
        {
            if self.ports[i].port == port {
                return true;
            }
            i = i + 1;
        }
        false
    }

    /// Whether an instance with this name exists.
    pub fn instance_exists(&self, name: &str) -> (r: bool)
        ensures
            r == has_name(self.instances@, name@),
    {
        match self.find_name_idx(name) {
            Some(_) => true,
            None => false,
        }
    }

    /// Whether an instance with this id exists.
    pub fn instance_id_exists(&self, id: &str) -> (r: bool)
        ensures
            r == has_id(self.instances@, id@),
    {
        match self.find_id_idx(id) {
            Some(_) => true,
            None => false,
        }
    }

    /// Inserts a new instance row together with its RPC port reservation, in
    /// one transaction: on any conflict nothing changes. Fails with
    /// `InstanceAlreadyExists` on a name or id conflict, and with
    /// `PortUnavailable` when the RPC port is already reserved.
    pub fn create_instance(&mut self, state: InstanceState) -> (r: Result<(), HypervisorError>)
        requires
            old(self).wf(),
            instance_ok(state),
        ensures
            final (self).wf(),
            old(self).covered() ==> final (self).covered(),
            final (self).components@ == old(self).components@,
            match r {
                Ok(()) => {
                    &&& !has_name(old(self).instances@, state.name@)
                    &&& !has_id(old(self).instances@, state.id@)
                    &&& !has_port(old(self).ports@, state.config.rpc_port)
                    &&& final (self).instances@ == old(self).instances@.push(state)
                    &&& final (self).ports@.len() == old(self).ports@.len() + 1
                    &&& (forall|j: int|
                        0 <= j < old(self).ports@.len() ==> final (self).ports@[j] == #[trigger] old(
                            self,
                        ).ports@[j])
                    &&& port_match(final (self).ports@.last(), state)
                },
                Err(HypervisorError::InstanceAlreadyExists(n)) => {
                    &&& (has_name(old(self).instances@, state.name@) || has_id(
                        old(self).instances@,
                        state.id@,
                    ))
                    &&& n@ == state.name@
                    &&& final (self).instances@ == old(self).instances@
                    &&& final (self).ports@ == old(self).ports@
                },
                Err(HypervisorError::PortUnavailable(p)) => {
                    &&& !has_name(old(self).instances@, state.name@)
                    &&& !has_id(old(self).instances@, state.id@)
                    &&& has_port(old(self).ports@, state.config.rpc_port)
                    &&& p == state.config.rpc_port
                    &&& final (self).instances@ == old(self).instances@
                    &&& final (self).ports@ == old(self).ports@
                },
                _ => false,
            },
    {
        if self.find_name_idx(state.name.as_str()).is_some() || self.find_id_idx(
            state.id.as_str(),
        ).is_some() {
            return Err(HypervisorError::InstanceAlreadyExists(state.name.clone()));
        }
        if self.port_reserved(state.config.rpc_port) {
            return Err(HypervisorError::PortUnavailable(state.config.rpc_port));
        }
        let row = PortRow {
            port: state.config.rpc_port,
            instance_id: state.id.clone(),
            port_type: "rpc".to_owned(),
        };
        self.instances.push(state);
        self.ports.push(row);
        proof {
            let insts = self.instances@;
            let newi = insts.len() - 1;
            // Uniqueness and foreign keys over the extended rows.
            assert forall|i: int, j: int| 0 <= i < j < insts.len() implies #[trigger] insts[i].name@
                != #[trigger] insts[j].name@ by {
                if j == newi {
                    assert(insts[i] == old(self).instances@[i]);
                }
            }
            assert forall|i: int, j: int| 0 <= i < j < insts.len() implies #[trigger] insts[i].id@
                != #[trigger] insts[j].id@ by {
                if j == newi {
                    assert(insts[i] == old(self).instances@[i]);
                }
            }
            assert forall|i: int, j: int| 0 <= i < j < self.ports@.len() implies
                #[trigger] self.ports@[i].port != #[trigger] self.ports@[j].port by {
                if j == self.ports@.len() - 1 {
                    assert(self.ports@[i] == old(self).ports@[i]);
                }
            }
            assert forall|i: int| 0 <= i < self.ports@.len() implies has_id(
                self.instances@,
                #[trigger] self.ports@[i].instance_id@,
            ) by {
                if i < self.ports@.len() - 1 {
                    let k = choose|k: int|
                        0 <= k < old(self).instances@.len() && #[trigger] old(
                            self,
                        ).instances@[k].id@ == old(self).ports@[i].instance_id@;
                    assert(self.instances@[k].id@ == self.ports@[i].instance_id@);
                } else {
                    assert(self.instances@[newi].id@ == self.ports@[i].instance_id@);
                }
            }
            assert forall|i: int| 0 <= i < self.components@.len() implies has_id(
                self.instances@,
                #[trigger] self.components@[i].instance_id@,
            ) by {
                let k = choose|k: int|
                    0 <= k < old(self).instances@.len() && #[trigger] old(self).instances@[k].id@
                        == old(self).components@[i].instance_id@;
                assert(self.instances@[k].id@ == self.components@[i].instance_id@);
            }
            // Coverage is preserved and established for the new row.
            if old(self).covered() {
                assert forall|i: int| 0 <= i < insts.len() implies covered_one(
                    self.ports@,
                    #[trigger] insts[i],
                ) by {
                    if i < newi {
                        assert(covered_one(old(self).ports@, old(self).instances@[i]));
                        lemma_covered_one_prefix(old(self).ports@, self.ports@, insts[i]);
                    } else {
                        assert(port_match(self.ports@[self.ports@.len() - 1], insts[i]));
                    }
                }
            }
        }
        Ok(())
    }

    /// Returns a copy of the instance row with this name.
    pub fn get_instance(&self, name: &str) -> (r: Result<InstanceState, HypervisorError>)
        ensures
            match r {
                Ok(st) => exists|i: int|
                    0 <= i < self.instances@.len() && #[trigger] self.instances@[i].name@ == name@
                        && state_eq(st, self.instances@[i]),
                Err(HypervisorError::InstanceNotFound(n)) => !has_name(self.instances@, name@)
                    && n@ == name@,
                _ => false,
            },
    {
        match self.find_name_idx(name) {
            Some(i) => Ok(self.instances[i].clone()),
            None => Err(HypervisorError::InstanceNotFound(name.to_owned())),
        }
    }

    /// Returns a copy of the instance row with this id.
    pub fn get_instance_by_id(&self, id: &str) -> (r: Result<InstanceState, HypervisorError>)
        ensures
            match r {
                Ok(st) => exists|i: int|
                    0 <= i < self.instances@.len() && #[trigger] self.instances@[i].id@ == id@
                        && state_eq(st, self.instances@[i]),
                Err(HypervisorError::InstanceNotFound(n)) => !has_id(self.instances@, id@) && n@
                    == id@,
                _ => false,
            },
    {
        match self.find_id_idx(id) {
            Some(i) => Ok(self.instances[i].clone()),
            None => Err(HypervisorError::InstanceNotFound(id.to_owned())),
        }
    }

    /// Copies of all instance rows, ordered by creation stamp descending
    /// (newest first): exactly one copy per row, ties in any order.
    pub fn list_instances(&self) -> (r: Vec<InstanceState>)
        requires
            self.wf(),
        ensures
            r@.len() == self.instances@.len(),
            forall|i: int, j: int|
                0 <= i < j < r@.len() ==> r@[i].created_at >= r@[j].created_at,
            forall|j: int|
                0 <= j < self.instances@.len() ==> #[trigger] listed_copy(
                    r@,
                    self.instances@,
                    j,
                ),
            forall|i: int| 0 <= i < r@.len() ==> #[trigger] copies_row(r@, self.instances@, i),
            forall|i: int, j: int| 0 <= i < j < r@.len() ==> r@[i].name@ != r@[j].name@,
    {
        let n = self.instances.len();
        let mut pool: Vec<usize> = Vec::new();
        let mut t: usize = 0;
        while t < n
            invariant
                t <= n,
                pool@.len() == t,
                forall|k: int| 0 <= k < t ==> pool@[k] == k,
            decreases n - t,
        {
            pool.push(t);
            t = t + 1;
        }

        proof {
            assert forall|j: int| 0 <= j < n implies #[trigger] pool@.contains(j as usize) by {
                assert(pool@[j] == j as usize);
            }
        }
        let mut r: Vec<InstanceState> = Vec::new();
        while pool.len() > 0
            invariant
                self.wf(),
                n == self.instances@.len(),
                r@.len() + pool@.len() == n,
                forall|k: int| 0 <= k < pool@.len() ==> #[trigger] pool@[k] < n,
                forall|k: int, l: int|
                    0 <= k < l < pool@.len() ==> #[trigger] pool@[k] != #[trigger] pool@[l],
                forall|i: int, j: int|
                    0 <= i < j < r@.len() ==> r@[i].created_at >= r@[j].created_at,
                forall|i: int, k: int|
                    0 <= i < r@.len() && 0 <= k < pool@.len() ==> #[trigger] r@[i].created_at
                        >= self.instances@[#[trigger] pool@[k] as int].created_at,
                forall|i: int, k: int|
                    0 <= i < r@.len() && 0 <= k < pool@.len() ==> #[trigger] r@[i].name@
                        != self.instances@[#[trigger] pool@[k] as int].name@,
                forall|i: int, j: int| 0 <= i < j < r@.len() ==> r@[i].name@ != r@[j].name@,
                forall|i: int| 0 <= i < r@.len() ==> #[trigger] copies_row(r@, self.instances@, i),
                forall|j: int|
                    0 <= j < n ==> #[trigger] listed_copy(r@, self.instances@, j)
                        || pool@.contains(j as usize),
            decreases pool@.len(),
        {
            // Pick the newest remaining row.
            let mut mi: usize = 0;
            let mut k: usize = 1;
            while k < pool.len()
                invariant
                    pool@.len() > 0,
                    mi < k,
                    k <= pool@.len(),
                    n == self.instances@.len(),
                    forall|u: int| 0 <= u < pool@.len() ==> #[trigger] pool@[u] < n,
                    forall|u: int|
                        0 <= u < k ==> self.instances@[pool@[mi as int] as int].created_at
                            >= self.instances@[#[trigger] pool@[u] as int].created_at,
                decreases pool@.len() - k,
            {
                if self.instances[pool[k]].created_at > self.instances[pool[mi]].created_at {
                    mi = k;
                }
                k = k + 1;
            }
            let ghost prev_pool = pool@;
            let chosen = pool.remove(mi);
            let row = self.instances[chosen].clone();
            let ghost r_prev = r@;
            r.push(row);
            proof {
                assert forall|x: int| 0 <= x < pool@.len() implies pool@[x] == (if x < mi {
                    prev_pool[x]
                } else {
                    prev_pool[x + 1]
                }) by {
                    assert(pool@[x] == prev_pool.remove(mi as int)[x]);
                }
                let ci = chosen as int;
                let last = r@.len() - 1;
                assert(state_eq(r@[last], self.instances@[ci]));
                assert(r@[last].created_at == self.instances@[ci].created_at);
                assert(r@[last].name@ == self.instances@[ci].name@);
                // The extracted row is newest among what remained.
                assert forall|i: int, k2: int|
                    0 <= i < r@.len() && 0 <= k2 < pool@.len() implies #[trigger] r@[i].created_at
                    >= self.instances@[#[trigger] pool@[k2] as int].created_at by {
                    let pk: int = if k2 < mi {
                        k2
                    } else {
                        k2 + 1
                    };
                    assert(pool@[k2] == prev_pool[pk]);
                    if i < last {
                        assert(r@[i] == r_prev[i]);
                    } else {
                        assert(self.instances@[ci].created_at
                            >= self.instances@[prev_pool[pk] as int].created_at);
                    }
                }
                // Its name differs from every remaining row's name.
                assert forall|i: int, k2: int|
                    0 <= i < r@.len() && 0 <= k2 < pool@.len() implies #[trigger] r@[i].name@
                    != self.instances@[#[trigger] pool@[k2] as int].name@ by {
                    let pk: int = if k2 < mi {
                        k2
                    } else {
                        k2 + 1
                    };
                    assert(pool@[k2] == prev_pool[pk]);
                    if i < last {
                        assert(r@[i] == r_prev[i]);
                    } else {
                        assert(prev_pool[pk] != prev_pool[mi as int]);
                        let a: int = prev_pool[pk] as int;
                        if a < ci {
                            assert(self.instances@[a].name@ != self.instances@[ci].name@);
                        } else {
                            assert(self.instances@[ci].name@ != self.instances@[a].name@);
                        }
                    }
                }
                // Every element of the result is a copy of some row.
                assert forall|i: int|
                    0 <= i < r@.len() implies #[trigger] copies_row(r@, self.instances@, i) by {
                    if i < last {
                        assert(copies_row(r_prev, self.instances@, i));
                        let j = choose|j: int|
                            0 <= j < self.instances@.len() && state_eq(
                                r_prev[i],
                                #[trigger] self.instances@[j],
                            );
                        assert(r@[i] == r_prev[i]);
                        assert(state_eq(r@[i], self.instances@[j]));
                    } else {
                        assert(state_eq(r@[last], self.instances@[ci]));
                    }
                }
                // Every row is still accounted for, in the result or the pool.
                assert forall|j: int|
                    0 <= j < n implies #[trigger] listed_copy(r@, self.instances@, j)
                    || pool@.contains(j as usize) by {
                    if listed_copy(r_prev, self.instances@, j) {
                        let i = choose|i: int|
                            0 <= i < r_prev.len() && state_eq(
                                #[trigger] r_prev[i],
                                self.instances@[j],
                            );
                        assert(r@[i] == r_prev[i]);
                        assert(state_eq(r@[i], self.instances@[j]));
                        assert(listed_copy(r@, self.instances@, j));
                    } else {
                        assert(prev_pool.contains(j as usize));
                        let w = choose|w: int|
                            0 <= w < prev_pool.len() && #[trigger] prev_pool[w] == j as usize;
                        if w == mi {
                            assert(state_eq(r@[last], self.instances@[j]));
                            assert(listed_copy(r@, self.instances@, j));
                        } else if w < mi {
                            assert(pool@[w] == j as usize);
                            assert(pool@.contains(j as usize));
                        } else {
                            assert(pool@[w - 1] == j as usize);
                            assert(pool@.contains(j as usize));
                        }
                    }
                }
            }
        }
        r
    }

    /// Overwrites the mutable fields of the instance row with this name:
    /// status, PID, runtime paths and update stamp. Identity, configuration
    /// and creation stamp are kept; the PID must be present exactly when the
    /// new status requires a live process.
    pub fn set_runtime(
        &mut self,
        name: &str,
        status: InstanceStatus,
        vm_pid: Option<i32>,
        qmp_socket: Option<String>,
        serial_log: Option<String>,
        updated_at: i64,
    ) -> (r: Result<(), HypervisorError>)
        requires
            old(self).wf(),
            vm_pid is Some <==> spec_is_active(status),
        ensures
            final (self).wf(),
            old(self).covered() ==> final (self).covered(),
            final (self).ports@ == old(self).ports@,
            final (self).components@ == old(self).components@,
            final (self).instances@.len() == old(self).instances@.len(),
            match r {
                Ok(()) => exists|i: int|
                    {
                        &&& 0 <= i < old(self).instances@.len()
                        &&& #[trigger] old(self).instances@[i].name@ == name@
                        &&& final (self).instances@[i].status == status
                        &&& final (self).instances@[i].vm_pid == vm_pid
                        &&& final (self).instances@[i].qmp_socket == qmp_socket
                        &&& final (self).instances@[i].serial_log == serial_log
                        &&& final (self).instances@[i].updated_at == updated_at
                        &&& final (self).instances@[i].id == old(self).instances@[i].id
                        &&& final (self).instances@[i].name == old(self).instances@[i].name
                        &&& final (self).instances@[i].config == old(self).instances@[i].config
                        &&& final (self).instances@[i].created_at == old(
                            self,
                        ).instances@[i].created_at
                        &&& (forall|j: int|
                            0 <= j < old(self).instances@.len() && j != i
                                ==> final (self).instances@[j] == #[trigger] old(
                                self,
                            ).instances@[j])
                    },
                Err(HypervisorError::InstanceNotFound(n)) => !has_name(old(self).instances@, name@)
                    && n@ == name@ && final (self).instances@ == old(self).instances@,
                _ => false,
            },
    {
        match self.find_name_idx(name) {
            Some(i) => {
                self.instances[i].status = status;
                self.instances[i].vm_pid = vm_pid;
                self.instances[i].qmp_socket = qmp_socket;
                self.instances[i].serial_log = serial_log;
                self.instances[i].updated_at = updated_at;
                proof {
                    let ii = i as int;
                    assert forall|m: int| 0 <= m < self.ports@.len() implies has_id(
                        self.instances@,
                        #[trigger] self.ports@[m].instance_id@,
                    ) by {
                        let k = choose|k: int|
                            0 <= k < old(self).instances@.len() && #[trigger] old(
                                self,
                            ).instances@[k].id@ == old(self).ports@[m].instance_id@;
                        assert(self.instances@[k].id@ == self.ports@[m].instance_id@);
                    }
                    assert forall|m: int| 0 <= m < self.components@.len() implies has_id(
                        self.instances@,
                        #[trigger] self.components@[m].instance_id@,
                    ) by {
                        let k = choose|k: int|
                            0 <= k < old(self).instances@.len() && #[trigger] old(
                                self,
                            ).instances@[k].id@ == old(self).components@[m].instance_id@;
                        assert(self.instances@[k].id@ == self.components@[m].instance_id@);
                    }
                    if old(self).covered() {
                        assert forall|m: int| 0 <= m < self.instances@.len() implies covered_one(
                            self.ports@,
                            #[trigger] self.instances@[m],
                        ) by {
                            assert(covered_one(old(self).ports@, old(self).instances@[m]));
                            if m == ii {
                                let j = choose|j: int|
                                    0 <= j < old(self).ports@.len() && port_match(
                                        #[trigger] old(self).ports@[j],
                                        old(self).instances@[m],
                                    );
                                assert(port_match(self.ports@[j], self.instances@[m]));
                            }
                        }
                    }
                }
                Ok(())
            },
            None => Err(HypervisorError::InstanceNotFound(name.to_owned())),
        }
    }

    /// Deletes the instance row with this name and cascades: every port
    /// reservation and boot-component row of that instance goes with it,
    /// and nothing else changes.
    pub fn delete_instance(&mut self, name: &str) -> (r: Result<(), HypervisorError>)
        requires
            old(self).wf(),
        ensures
            final (self).wf(),
            old(self).covered() ==> final (self).covered(),
            match r {
                Ok(()) => exists|i: int|
                    {
                        &&& 0 <= i < old(self).instances@.len()
                        &&& #[trigger] old(self).instances@[i].name@ == name@
                        &&& final (self).instances@ == old(self).instances@.remove(i)
                        &&& (forall|j: int|
                            0 <= j < final (self).ports@.len()
                                ==> #[trigger] final (self).ports@[j].instance_id@ != old(
                                self,
                            ).instances@[i].id@)
                        &&& (forall|j: int|
                            0 <= j < final (self).components@.len()
                                ==> #[trigger] final (self).components@[j].instance_id@ != old(
                                self,
                            ).instances@[i].id@)
                        &&& (forall|j: int|
                            0 <= j < old(self).ports@.len() && old(self).ports@[j].instance_id@
                                != old(self).instances@[i].id@ ==> final (self).ports@.contains(
                                #[trigger] old(self).ports@[j],
                            ))
                        &&& (forall|j: int|
                            0 <= j < old(self).components@.len() && old(
                                self,
                            ).components@[j].instance_id@ != old(self).instances@[i].id@
                                ==> final (self).components@.contains(
                                #[trigger] old(self).components@[j],
                            ))
                        &&& (forall|j: int|
                            0 <= j < final (self).ports@.len() ==> old(self).ports@.contains(
                                #[trigger] final (self).ports@[j],
                            ))
                        &&& (forall|j: int|
                            0 <= j < final (self).components@.len() ==> old(
                                self,
                            ).components@.contains(#[trigger] final (self).components@[j]))
                    },
                Err(HypervisorError::InstanceNotFound(n)) => {
                    &&& !has_name(old(self).instances@, name@)
                    &&& n@ == name@
                    &&& final (self).instances@ == old(self).instances@
                    &&& final (self).ports@ == old(self).ports@
                    &&& final (self).components@ == old(self).components@
                },
                _ => false,
            },
    {
        let idx = match self.find_name_idx(name) {
            Some(i) => i,
            None => {
                return Err(HypervisorError::InstanceNotFound(name.to_owned()));
            },
        };
        let ghost old_insts = self.instances@;
        let removed = self.instances.remove(idx);
        let id = removed.id;
        let ghost insts_after = self.instances@;
        proof {
            assert(id@ == old_insts[idx as int].id@);
        }

        let ghost old_ports = self.ports@;
        let mut k: usize = 0;
        while k < self.ports.len()
            invariant
                k <= self.ports@.len(),
                self.instances@ == insts_after,
                self.components@ == old(self).components@,
                forall|m: int| 0 <= m < k ==> #[trigger] self.ports@[m].instance_id@ != id@,
                forall|m: int|
                    0 <= m < self.ports@.len() ==> old_ports.contains(#[trigger] self.ports@[m]),
                forall|m: int|
                    0 <= m < old_ports.len() && #[trigger] old_ports[m].instance_id@ != id@
                        ==> self.ports@.contains(old_ports[m]),
                forall|m: int, l: int|
                    0 <= m < l < self.ports@.len() ==> #[trigger] self.ports@[m].port
                        != #[trigger] self.ports@[l].port,
            decreases self.ports@.len() - k,
        {
            let ghost prev = self.ports@;
            if str_eq(self.ports[k].instance_id.as_str(), id.as_str()) {
                self.ports.remove(k);
                proof {
                    assert forall|m: int| 0 <= m < self.ports@.len() implies old_ports.contains(
                        #[trigger] self.ports@[m],
                    ) by {
                        if m < k {
                            assert(self.ports@[m] == prev[m]);
                        } else {
                            assert(self.ports@[m] == prev[m + 1]);
                        }
                    }
                    assert forall|m: int|
                        0 <= m < old_ports.len() && #[trigger] old_ports[m].instance_id@
                            != id@ implies self.ports@.contains(old_ports[m]) by {
                        let w = choose|w: int| 0 <= w < prev.len() && prev[w] == old_ports[m];
                        if w < k {
                            assert(self.ports@[w] == old_ports[m]);
                        } else {
                            assert(w != k);
                            assert(self.ports@[w - 1] == old_ports[m]);
                        }
                    }
                    assert forall|m: int, l: int|
                        0 <= m < l < self.ports@.len() implies #[trigger] self.ports@[m].port
                        != #[trigger] self.ports@[l].port by {
                        let pm: int = if m < k {
                            m
                        } else {
                            m + 1
                        };
                        let pl: int = if l < k {
                            l
                        } else {
                            l + 1
                        };
                        assert(self.ports@[m] == prev[pm]);
                        assert(self.ports@[l] == prev[pl]);
                    }
                }
            } else {
                k = k + 1;
            }
        }

        let ghost ports_after = self.ports@;
        let ghost old_components = self.components@;
        let mut c: usize = 0;
        while c < self.components.len()
            invariant
                c <= self.components@.len(),
                self.instances@ == insts_after,
                self.ports@ == ports_after,
                forall|m: int| 0 <= m < c ==> #[trigger] self.components@[m].instance_id@ != id@,
                forall|m: int|
                    0 <= m < self.components@.len() ==> old_components.contains(
                        #[trigger] self.components@[m],
                    ),
                forall|m: int|
                    0 <= m < old_components.len() && #[trigger] old_components[m].instance_id@
                        != id@ ==> self.components@.contains(old_components[m]),
                forall|m: int, l: int|
                    0 <= m < l < self.components@.len() ==> !(
                    #[trigger] self.components@[m].instance_id@
                        == #[trigger] self.components@[l].instance_id@
                        && self.components@[m].component_type@
                        == self.components@[l].component_type@),
            decreases self.components@.len() - c,
        {
            let ghost prev = self.components@;
            if str_eq(self.components[c].instance_id.as_str(), id.as_str()) {
                self.components.remove(c);
                proof {
                    assert forall|m: int|
                        0 <= m < self.components@.len() implies old_components.contains(
                        #[trigger] self.components@[m],
                    ) by {
                        if m < c {
                            assert(self.components@[m] == prev[m]);
                        } else {
                            assert(self.components@[m] == prev[m + 1]);
                        }
                    }
                    assert forall|m: int|
                        0 <= m < old_components.len() && #[trigger] old_components[m].instance_id@
                            != id@ implies self.components@.contains(old_components[m]) by {
                        let w = choose|w: int|
                            0 <= w < prev.len() && prev[w] == old_components[m];
                        if w < c {
                            assert(self.components@[w] == old_components[m]);
                        } else {
                            assert(w != c);
                            assert(self.components@[w - 1] == old_components[m]);
                        }
                    }
                    assert forall|m: int, l: int|
                        0 <= m < l < self.components@.len() implies !(
                    #[trigger] self.components@[m].instance_id@
                        == #[trigger] self.components@[l].instance_id@
                        && self.components@[m].component_type@
                        == self.components@[l].component_type@) by {
                        let pm: int = if m < c {
                            m
                        } else {
                            m + 1
                        };
                        let pl: int = if l < c {
                            l
                        } else {
                            l + 1
                        };
                        assert(self.components@[m] == prev[pm]);
                        assert(self.components@[l] == prev[pl]);
                    }
                }
            } else {
                c = c + 1;
            }
        }

        proof {
            let di = idx as int;
            let deleted_id = old_insts[di].id@;
            old_insts.remove_ensures(di);
            // Uniqueness of the remaining instance rows.
            assert forall|m: int, l: int|
                0 <= m < l < self.instances@.len() implies #[trigger] self.instances@[m].name@
                != #[trigger] self.instances@[l].name@ by {
                let pm: int = if m < di {
                    m
                } else {
                    m + 1
                };
                let pl: int = if l < di {
                    l
                } else {
                    l + 1
                };
                assert(self.instances@[m] == old_insts[pm]);
                assert(self.instances@[l] == old_insts[pl]);
            }
            assert forall|m: int, l: int|
                0 <= m < l < self.instances@.len() implies #[trigger] self.instances@[m].id@
                != #[trigger] self.instances@[l].id@ by {
                let pm: int = if m < di {
                    m
                } else {
                    m + 1
                };
                let pl: int = if l < di {
                    l
                } else {
                    l + 1
                };
                assert(self.instances@[m] == old_insts[pm]);
                assert(self.instances@[l] == old_insts[pl]);
            }
            assert forall|m: int| 0 <= m < self.instances@.len() implies instance_ok(
                #[trigger] self.instances@[m],
            ) by {
                let pm: int = if m < di {
                    m
                } else {
                    m + 1
                };
                assert(self.instances@[m] == old_insts[pm]);
            }
            // Foreign keys of the retained rows now point past the deleted id.
            assert forall|m: int| 0 <= m < self.ports@.len() implies has_id(
                self.instances@,
                #[trigger] self.ports@[m].instance_id@,
            ) by {
                assert(old_ports.contains(self.ports@[m]));
                let w = choose|w: int| 0 <= w < old_ports.len() && old_ports[w] == self.ports@[m];
                let k2 = choose|k2: int|
                    0 <= k2 < old_insts.len() && #[trigger] old_insts[k2].id@
                        == old_ports[w].instance_id@;
                assert(self.ports@[m].instance_id@ != deleted_id);
                assert(k2 != di);
                if k2 < di {
                    assert(self.instances@[k2] == old_insts[k2]);
                } else {
                    assert(self.instances@[k2 - 1] == old_insts[k2]);
                }
            }
            assert forall|m: int| 0 <= m < self.components@.len() implies has_id(
                self.instances@,
                #[trigger] self.components@[m].instance_id@,
            ) by {
                assert(old_components.contains(self.components@[m]));
                let w = choose|w: int|
                    0 <= w < old_components.len() && old_components[w] == self.components@[m];
                let k2 = choose|k2: int|
                    0 <= k2 < old_insts.len() && #[trigger] old_insts[k2].id@
                        == old_components[w].instance_id@;
                assert(self.components@[m].instance_id@ != deleted_id);
                assert(k2 != di);
                if k2 < di {
                    assert(self.instances@[k2] == old_insts[k2]);
                } else {
                    assert(self.instances@[k2 - 1] == old_insts[k2]);
                }
            }
            // Coverage of the remaining instances is retained.
            if old(self).covered() {
                assert forall|m: int| 0 <= m < self.instances@.len() implies covered_one(
                    self.ports@,
                    #[trigger] self.instances@[m],
                ) by {
                    let pm: int = if m < di {
                        m
                    } else {
                        m + 1
                    };
                    assert(self.instances@[m] == old_insts[pm]);
                    assert(covered_one(old_ports, old_insts[pm]));
                    assert(old_insts[pm].id@ != deleted_id);
                    lemma_covered_one_retained(old_ports, self.ports@, old_insts[pm]);
                }
            }
            // The ensures witness.
            assert(old(self).instances@[di].name@ == name@);
            assert(self.instances@ =~= old(self).instances@.remove(di));
        }
        Ok(())
    }

    /// Reserves an extra port for an existing instance. The port number is
    /// the primary key: a second reservation of the same number is refused.
    pub fn allocate_port(&mut self, instance_id: &str, port: u16, port_type: &str) -> (r: Result<
        (),
        HypervisorError,
    >)
        requires
            old(self).wf(),
            has_id(old(self).instances@, instance_id@),
        ensures
            final (self).wf(),
            old(self).covered() ==> final (self).covered(),
            final (self).instances@ == old(self).instances@,
            final (self).components@ == old(self).components@,
            match r {
                Ok(()) => {
                    &&& !has_port(old(self).ports@, port)
                    &&& final (self).ports@.len() == old(self).ports@.len() + 1
                    &&& (forall|j: int|
                        0 <= j < old(self).ports@.len() ==> final (self).ports@[j] == #[trigger] old(
                            self,
                        ).ports@[j])
                    &&& final (self).ports@.last().port == port
                    &&& final (self).ports@.last().instance_id@ == instance_id@
                    &&& final (self).ports@.last().port_type@ == port_type@
                },
                Err(HypervisorError::PortUnavailable(p)) => {
                    &&& has_port(old(self).ports@, port)
                    &&& p == port
                    &&& final (self).ports@ == old(self).ports@
                },
                _ => false,
            },
    {
        if self.port_reserved(port) {
            return Err(HypervisorError::PortUnavailable(port));
        }
        self.ports.push(
            PortRow { port, instance_id: instance_id.to_owned(), port_type: port_type.to_owned() },
        );
        proof {
            assert forall|i: int, j: int| 0 <= i < j < self.ports@.len() implies
                #[trigger] self.ports@[i].port != #[trigger] self.ports@[j].port by {
                if j == self.ports@.len() - 1 {
                    assert(self.ports@[i] == old(self).ports@[i]);
                }
            }
            if old(self).covered() {
                assert forall|i: int| 0 <= i < self.instances@.len() implies covered_one(
                    self.ports@,
                    #[trigger] self.instances@[i],
                ) by {
                    assert(covered_one(old(self).ports@, old(self).instances@[i]));
                    lemma_covered_one_prefix(old(self).ports@, self.ports@, self.instances@[i]);
                }
            }
        }
        Ok(())
    }

    /// The reserved port numbers, in ascending order: exactly the port
    /// column of the reservation table.
    pub fn get_allocated_ports(&self) -> (r: Vec<u16>)
        requires
            self.wf(),
        ensures
            r@.len() == self.ports@.len(),
            forall|i: int, j: int| 0 <= i < j < r@.len() ==> r@[i] < r@[j],
            forall|i: int|
                0 <= i < self.ports@.len() ==> r@.contains(#[trigger] self.ports@[i].port),
            forall|i: int| 0 <= i < r@.len() ==> has_port(self.ports@, #[trigger] r@[i]),
    {
        let n = self.ports.len();
        let mut pool: Vec<usize> = Vec::new();
        let mut t: usize = 0;
        while t < n
            invariant
                t <= n,
                pool@.len() == t,
                forall|k: int| 0 <= k < t ==> pool@[k] == k,
            decreases n - t,
        {
            pool.push(t);
            t = t + 1;
        }

        proof {
            assert forall|j: int| 0 <= j < n implies #[trigger] pool@.contains(j as usize) by {
                assert(pool@[j] == j as usize);
            }
        }
        let mut r: Vec<u16> = Vec::new();
        while pool.len() > 0
            invariant
                self.wf(),
                n == self.ports@.len(),
                r@.len() + pool@.len() == n,
                forall|k: int| 0 <= k < pool@.len() ==> #[trigger] pool@[k] < n,
                forall|k: int, l: int|
                    0 <= k < l < pool@.len() ==> #[trigger] pool@[k] != #[trigger] pool@[l],
                forall|i: int, j: int| 0 <= i < j < r@.len() ==> r@[i] < r@[j],
                forall|i: int, k: int|
                    0 <= i < r@.len() && 0 <= k < pool@.len() ==> #[trigger] r@[i]
                        < self.ports@[#[trigger] pool@[k] as int].port,
                forall|i: int| 0 <= i < r@.len() ==> has_port(self.ports@, #[trigger] r@[i]),
                forall|j: int|
                    0 <= j < n ==> r@.contains(#[trigger] self.ports@[j].port) || pool@.contains(
                        j as usize,
                    ),
            decreases pool@.len(),
        {
            // Pick the lowest remaining port.
            let mut mi: usize = 0;
            let mut k: usize = 1;
            while k < pool.len()
                invariant
                    pool@.len() > 0,
                    mi < k,
                    k <= pool@.len(),
                    n == self.ports@.len(),
                    forall|u: int| 0 <= u < pool@.len() ==> #[trigger] pool@[u] < n,
                    forall|u: int|
                        0 <= u < k ==> self.ports@[pool@[mi as int] as int].port
                            <= self.ports@[#[trigger] pool@[u] as int].port,
                decreases pool@.len() - k,
            {
                if self.ports[pool[k]].port < self.ports[pool[mi]].port {
                    mi = k;
                }
                k = k + 1;
            }
            let ghost prev_pool = pool@;
            let chosen = pool.remove(mi);
            let value = self.ports[chosen].port;
            let ghost r_prev = r@;
            r.push(value);
            proof {
                assert forall|x: int| 0 <= x < pool@.len() implies pool@[x] == (if x < mi {
                    prev_pool[x]
                } else {
                    prev_pool[x + 1]
                }) by {
                    assert(pool@[x] == prev_pool.remove(mi as int)[x]);
                }
                let ci = chosen as int;
                let last = r@.len() - 1;
                assert(r@[last] == self.ports@[ci].port);
                assert(has_port(self.ports@, r@[last]));
                // The extracted port is strictly below everything remaining.
                assert forall|i: int, k2: int|
                    0 <= i < r@.len() && 0 <= k2 < pool@.len() implies #[trigger] r@[i]
                    < self.ports@[#[trigger] pool@[k2] as int].port by {
                    let pk: int = if k2 < mi {
                        k2
                    } else {
                        k2 + 1
                    };
                    assert(pool@[k2] == prev_pool[pk]);
                    if i < last {
                        assert(r@[i] == r_prev[i]);
                    } else {
                        assert(prev_pool[pk] != prev_pool[mi as int]);
                        let a: int = prev_pool[pk] as int;
                        assert(self.ports@[ci].port <= self.ports@[a].port);
                        if a < ci {
                            assert(self.ports@[a].port != self.ports@[ci].port);
                        } else {
                            assert(self.ports@[ci].port != self.ports@[a].port);
                        }
                    }
                }
                // Every reserved port is still accounted for.
                assert forall|j: int|
                    0 <= j < n implies r@.contains(#[trigger] self.ports@[j].port)
                    || pool@.contains(j as usize) by {
                    if !r_prev.contains(self.ports@[j].port) {
                        let w = choose|w: int|
                            0 <= w < prev_pool.len() && prev_pool[w] == j as usize;
                        if w == mi {
                            assert(r@[last] == self.ports@[j].port);
                        } else if w < mi {
                            assert(pool@[w] == j as usize);
                        } else {
                            assert(pool@[w - 1] == j as usize);
                        }
                    } else {
                        let i = choose|i: int|
                            0 <= i < r_prev.len() && r_prev[i] == self.ports@[j].port;
                        assert(r@[i] == self.ports@[j].port);
                    }
                }
            }
        }
        r
    }

    /// Records a boot component for an existing instance; a second row with
    /// the same `(instance_id, component_type)` key is refused.
    pub fn add_boot_component(
        &mut self,
        instance_id: &str,
        component_type: &str,
        file_path: &str,
        sha256_hash: &str,
    ) -> (r: Result<(), HypervisorError>)
        requires
            old(self).wf(),
            has_id(old(self).instances@, instance_id@),
        ensures
            final (self).wf(),
            old(self).covered() ==> final (self).covered(),
            final (self).instances@ == old(self).instances@,
            final (self).ports@ == old(self).ports@,
            match r {
                Ok(()) => {
                    &&& final (self).components@.len() == old(self).components@.len() + 1
                    &&& (forall|j: int|
                        0 <= j < old(self).components@.len() ==> final (self).components@[j]
                            == #[trigger] old(self).components@[j])
                    &&& final (self).components@.last().instance_id@ == instance_id@
                    &&& final (self).components@.last().component_type@ == component_type@
                    &&& final (self).components@.last().file_path@ == file_path@
                    &&& final (self).components@.last().sha256_hash@ == sha256_hash@
                },
                Err(HypervisorError::Database(_)) => final (self).components@ == old(
                    self,
                ).components@ && exists|j: int|
                    0 <= j < old(self).components@.len()
                        && #[trigger] old(self).components@[j].instance_id@ == instance_id@ && old(
                        self,
                    ).components@[j].component_type@ == component_type@,
                _ => false,
            },
    {
        let n = self.components.len();
        let mut i: usize = 0;
        while i < n
            invariant
                i <= n,
                n == self.components@.len(),
                old(self).wf(),
                self.instances@ == old(self).instances@,
                self.ports@ == old(self).ports@,
                self.components@ == old(self).components@,
                forall|j: int|
                    0 <= j < i ==> !(#[trigger] self.components@[j].instance_id@ == instance_id@
                        && self.components@[j].component_type@ == component_type@),
            decreases n - i,
        {
            if str_eq(self.components[i].instance_id.as_str(), instance_id) && str_eq(
                self.components[i].component_type.as_str(),
                component_type,
            ) {
                return Err(HypervisorError::Database("duplicate boot component".to_owned()));
            }
            i = i + 1;
        }
        self.components.push(
            BootComponent {
                instance_id: instance_id.to_owned(),
                component_type: component_type.to_owned(),
                file_path: file_path.to_owned(),
                sha256_hash: sha256_hash.to_owned(),
            },
        );
        proof {
            let nc = self.components@.len() - 1;
            assert forall|m: int, l: int| 0 <= m < l < self.components@.len() implies !(
            #[trigger] self.components@[m].instance_id@ == #[trigger] self.components@[l].instance_id@
                && self.components@[m].component_type@
                == self.components@[l].component_type@) by {
                if l == nc {
                    assert(self.components@[m] == old(self).components@[m]);
                }
            }
            assert forall|m: int| 0 <= m < self.components@.len() implies has_id(
                self.instances@,
                #[trigger] self.components@[m].instance_id@,
            ) by {
                if m < nc {
                    assert(self.components@[m] == old(self).components@[m]);
                }
            }
        }
        Ok(())
    }
}

} // verus!
