//! The trigger: a request that says whether the game server is online.

use crate::kernel::{Kernel, KernelStep};
use crate::paradise::api::{ApiAuthorization, HttpReply};
use crate::paradise::bot::sanctuary::{alert_content, alert_everyone, Alert};
use vstd::prelude::*;
use vstd::string::*;

verus! {

/// The parameters of the request.
#[derive(Debug, Clone, Copy, PartialEq, Eq)]
pub struct AlertSanctuaryStatusParams {
    /// Whether the game server is online.
    pub online: bool,
}

/// Answers an authorized request. The answer is `200` at once; the alert is
/// handed back for a background task, which is registered with the kernel,
/// to deliver it.
pub fn alert_status(
    kernel: &mut Kernel,
    params: AlertSanctuaryStatusParams,
    authorization: &ApiAuthorization,
) -> (answer: (HttpReply, Alert))
    requires
        old(kernel)@.background_tasks < usize::MAX,
    ensures
        answer.0.status == 200,
        answer.0.body@ == "Ok!"@,
        answer.1.channel_id == authorization@.alert_channel_id,
        answer.1.content@ == alert_content(authorization@, params.online),
        final(kernel)@ == old(kernel)@.step(KernelStep::Spawn),
{
    let service = authorization.service();
    kernel.spawn();
    let alert = alert_everyone(&service, params.online);
    (HttpReply { status: 200, body: "Ok!".to_owned() }, alert)
}

} // verus!
