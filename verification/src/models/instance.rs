use crate::models::arch::Arch;
use crate::models::data_size::DataSize;
use crate::models::snapshot::Snapshot;
use crate::text::copy_str;
use vstd::prelude::*;

verus! {

/// The mathematical content of an instance description.
pub struct InstanceModel {
    pub name: Seq<char>,
    pub arch: Arch,
    pub user: Seq<char>,
    pub cpus: u16,
    pub mem: nat,
    pub disk_capacity: nat,
    pub disk_used: Option<nat>,
    pub ssh_port: u16,
    pub snapshots: Seq<Seq<char>>,
}

/// The names of a list of snapshots.
pub open spec fn snapshot_names(v: Seq<Snapshot>) -> Seq<Seq<char>> {
    Seq::new(v.len(), |i: int| v[i].name@)
}

/// The size the view of an optional size.
pub open spec fn opt_size(v: Option<DataSize>) -> Option<nat> {
    match v {
        Some(s) => Some(s@),
        None => None,
    }
}

/// A VM instance: its name, machine and disk.
#[derive(Debug, PartialEq)]
pub struct Instance {
    pub name: String,
    pub arch: Arch,
    pub user: String,
    pub cpus: u16,
    pub mem: DataSize,
    pub disk_capacity: DataSize,
    pub disk_used: Option<DataSize>,
    pub ssh_port: u16,
    pub snapshots: Vec<Snapshot>,
}

impl View for Instance {
    type V = InstanceModel;

    open spec fn view(&self) -> InstanceModel {
        InstanceModel {
            name: self.name@,
            arch: self.arch,
            user: self.user@,
            cpus: self.cpus,
            mem: self.mem@,
            disk_capacity: self.disk_capacity@,
            disk_used: opt_size(self.disk_used),
            ssh_port: self.ssh_port,
            snapshots: snapshot_names(self.snapshots@),
        }
    }
}

/// A copy of a list of snapshots.
pub fn clone_snapshots(v: &Vec<Snapshot>) -> (r: Vec<Snapshot>)
    ensures
        snapshot_names(r@) == snapshot_names(v@),
{
    let mut r: Vec<Snapshot> = Vec::new();
    let mut i: usize = 0;
    while i < v.len()
        invariant
            i <= v@.len(),
            snapshot_names(r@) =~= snapshot_names(v@).take(i as int),
        decreases v@.len() - i,
    {
        let s = v[i].clone();
        let ghost before = r@;
        r.push(s);
        assert(snapshot_names(r@) =~= snapshot_names(before).push(v@[i as int].name@));
        assert(snapshot_names(v@).take(i + 1) =~= snapshot_names(v@).take(i as int).push(
            v@[i as int].name@,
        ));
        i = i + 1;
    }
    assert(snapshot_names(v@).take(v@.len() as int) =~= snapshot_names(v@));
    r
}

impl Clone for Instance {
    fn clone(&self) -> (r: Self)
        ensures
            r@ == self@,
    {
        Instance {
            name: copy_str(self.name.as_str()),
            arch: self.arch,
            user: copy_str(self.user.as_str()),
            cpus: self.cpus,
            mem: self.mem,
            disk_capacity: self.disk_capacity,
            disk_used: self.disk_used,
            ssh_port: self.ssh_port,
            snapshots: clone_snapshots(&self.snapshots),
        }
    }
}

impl Default for Instance {
    /// An instance with empty names, no resources and no snapshots.
    fn default() -> (r: Self)
        ensures
            r@.name == Seq::<char>::empty(),
            r@.arch == Arch::AMD64,
            r@.user == Seq::<char>::empty(),
            r@.cpus == 0,
            r@.mem == 0,
            r@.disk_capacity == 0,
            r@.disk_used is None,
            r@.ssh_port == 0,
            r@.snapshots == Seq::<Seq<char>>::empty(),
    {
        let r = Instance {
            name: String::new(),
            arch: Arch::AMD64,
            user: String::new(),
            cpus: 0,
            mem: DataSize::new(0),
            disk_capacity: DataSize::new(0),
            disk_used: None,
            ssh_port: 0,
            snapshots: Vec::new(),
        };
        assert(r@.snapshots =~= Seq::<Seq<char>>::empty());
        r
    }
}

} // verus!
