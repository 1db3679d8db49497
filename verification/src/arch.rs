//! The team/architecture interface: a named subset of PEs with its own local
//! numbering.  The correlation machinery uses it to translate a world PE rank
//! into a position within the subset addressed by a call.

use vstd::prelude::*;

verus! {

/// The recoverable "not in this team" signal returned by a failed PE-id
/// lookup.
#[derive(Debug, PartialEq, Eq, Clone, Copy, Structural)]
pub struct NotInTeam;

/// A team/architecture object: translates a global (world) PE rank into a
/// team-local index.
pub trait LamellarArch: Send + Sync {
    /// The mathematical content of this architecture: which team-local index,
    /// if any, a world PE rank maps to.
    spec fn team_pe_spec(&self, world_pe: usize) -> Option<usize>;

    /// Translate a world PE rank into a team-local index; `Err` is the
    /// recoverable "not in this team" signal.
    fn team_pe_id(&self, world_pe: &usize) -> (r: Result<usize, NotInTeam>)
        ensures
            match r {
                Ok(i) => self.team_pe_spec(*world_pe) == Some(i),
                Err(_) => self.team_pe_spec(*world_pe) is None,
            },
    ;
}

/// The whole-world architecture over `num_pes` PEs: world rank and team-local
/// index coincide, and ranks at or beyond `num_pes` are not members.
#[derive(Debug, PartialEq, Eq, Clone, Copy, Structural)]
pub struct GlobalArch {
    pub num_pes: usize,
}

impl LamellarArch for GlobalArch {
    open spec fn team_pe_spec(&self, world_pe: usize) -> Option<usize> {
        if world_pe < self.num_pes {
            Some(world_pe)
        } else {
            None
        }
    }

    fn team_pe_id(&self, world_pe: &usize) -> (r: Result<usize, NotInTeam>)
        ensures
            match r {
                Ok(i) => self.team_pe_spec(*world_pe) == Some(i),
                Err(_) => self.team_pe_spec(*world_pe) is None,
            },
    {
        if *world_pe < self.num_pes {
            Ok(*world_pe)
        } else {
            Err(NotInTeam)
        }
    }
}

} // verus!
