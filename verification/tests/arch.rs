use lamellar::arch::{GlobalArch, LamellarArch, NotInTeam};

#[test]
fn world_ranks_map_to_themselves() {
    let arch = GlobalArch { num_pes: 4 };
    assert_eq!(arch.team_pe_id(&0), Ok(0));
    assert_eq!(arch.team_pe_id(&3), Ok(3));
}

#[test]
fn ranks_outside_the_team_are_rejected() {
    let arch = GlobalArch { num_pes: 4 };
    assert_eq!(arch.team_pe_id(&4), Err(NotInTeam));
    assert_eq!(arch.team_pe_id(&17), Err(NotInTeam));
}
