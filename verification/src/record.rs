use vstd::prelude::*;

verus! {

/// One entry of a snapshot: a process identifier together with the
/// resolved name of its base module.  A plain immutable value, created
/// only once both parts are known.
#[derive(Debug)]
pub struct Process {
    pub pid: u32,
    pub name: String,
}

/// The mathematical value of a `Process`: the identifier and the name's
/// character sequence.
pub struct ProcessView {
    pub pid: u32,
    pub name: Seq<char>,
}

impl View for Process {
    type V = ProcessView;

    open spec fn view(&self) -> ProcessView {
        ProcessView { pid: self.pid, name: self.name@ }
    }
}

/// The mathematical value of a whole snapshot.
pub open spec fn records_view(v: Seq<Process>) -> Seq<ProcessView> {
    v.map_values(|p: Process| p@)
}

} // verus!
