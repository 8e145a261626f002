use vstd::prelude::*;

verus! {

/// The units the player has left to deploy.
pub struct DeploymentResources {
    pub remaining_gliders: u32,
    pub remaining_lwss: u32,
    pub deployed_this_round: bool,
}

impl Default for DeploymentResources {
    fn default() -> (r: DeploymentResources)
        ensures
            r.remaining_gliders == 3,
            r.remaining_lwss == 2,
            !r.deployed_this_round,
    {
        DeploymentResources { remaining_gliders: 3, remaining_lwss: 2, deployed_this_round: false }
    }
}

} // verus!
