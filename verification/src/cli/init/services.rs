//! The systemd services: who runs them and what their units say.

use vstd::prelude::*;
use vstd::string::StringExecFns;

verus! {

/// The user other than root on whose behalf the command runs, if there is
/// one: the user that runs it, or as root the user that called `sudo`.
/// `sudo_uid` is read only for root. The services are offered to run as that
/// user.
pub fn other_user(uid: u32, sudo_uid: Option<u32>) -> (other: Option<u32>)
    ensures
        uid != 0 ==> other == Some(uid),
        uid == 0 ==> other == match sudo_uid {
            Some(sudo_uid) if sudo_uid != 0 => Some(sudo_uid),
            _ => None,
        },
{
    match uid {
        0 => match sudo_uid {
            Some(0) => None,
            uid => uid,
        },
        uid => Some(uid),
    }
}

/// The unit of the validator node up to the name of its user.
pub const VALIDATOR_SERVICE_HEAD: &'static str =
    "[Unit]\nDescription=Everscale Validator Node\nAfter=network.target\nStartLimitIntervalSec=0\n\n[Service]\nType=simple\nRestart=always\nRestartSec=1\nUser=";

/// The unit of the validator node between its user and its binary.
pub const VALIDATOR_SERVICE_EXEC: &'static str = "\nLimitNOFILE=2048000\nExecStart=";

/// The option of the node that names the directory of its configs.
pub const VALIDATOR_SERVICE_CONFIGS: &'static str = " --configs ";

/// The end of the unit of the validator node.
pub const VALIDATOR_SERVICE_TAIL: &'static str = "\n\n[Install]\nWantedBy=multi-user.target\n";

/// The unit of the validator manager up to the name of its user.
pub const VALIDATOR_MANAGER_SERVICE_HEAD: &'static str =
    "[Unit]\nDescription=Everscale Validator Manager\nAfter=network.target\nStartLimitIntervalSec=0\n\n[Service]\nType=simple\nRestart=always\nRestartSec=1\nUser=";

/// The unit of the validator manager between its user and its binary.
pub const VALIDATOR_MANAGER_SERVICE_EXEC: &'static str = "\nExecStart=";

/// The option of the manager that names the root directory.
pub const VALIDATOR_MANAGER_SERVICE_ROOT: &'static str = " --root ";

/// The end of the unit of the validator manager.
pub const VALIDATOR_MANAGER_SERVICE_TAIL: &'static str =
    " validate\n\n[Install]\nWantedBy=multi-user.target\n";

/// The text of the systemd unit that runs the validator node as `user`:
/// `node_binary` is started with the configs in `configs_dir`.
pub open spec fn validator_service_text(
    user: Seq<char>,
    node_binary: Seq<char>,
    configs_dir: Seq<char>,
) -> Seq<char> {
    VALIDATOR_SERVICE_HEAD@ + user + VALIDATOR_SERVICE_EXEC@ + node_binary
        + VALIDATOR_SERVICE_CONFIGS@ + configs_dir + VALIDATOR_SERVICE_TAIL@
}

/// The text of the systemd unit that runs the validator manager as `user`:
/// `stever_binary` is started with `validate` on `root_dir`.
pub open spec fn validator_manager_service_text(
    user: Seq<char>,
    stever_binary: Seq<char>,
    root_dir: Seq<char>,
) -> Seq<char> {
    VALIDATOR_MANAGER_SERVICE_HEAD@ + user + VALIDATOR_MANAGER_SERVICE_EXEC@ + stever_binary
        + VALIDATOR_MANAGER_SERVICE_ROOT@ + root_dir + VALIDATOR_MANAGER_SERVICE_TAIL@
}

/// Writes out the systemd unit of the validator node. The paths are taken as
/// they are: the caller resolves them first.
pub fn validator_service(user: &str, node_binary: &str, configs_dir: &str) -> (unit: String)
    ensures
        unit@ == validator_service_text(user@, node_binary@, configs_dir@),
{
    let mut unit = String::from_str(VALIDATOR_SERVICE_HEAD);
    unit.append(user);
    unit.append(VALIDATOR_SERVICE_EXEC);
    unit.append(node_binary);
    unit.append(VALIDATOR_SERVICE_CONFIGS);
    unit.append(configs_dir);
    unit.append(VALIDATOR_SERVICE_TAIL);
    unit
}

/// Writes out the systemd unit of the validator manager. The paths are taken
/// as they are: the caller resolves them first.
pub fn validator_manager_service(user: &str, stever_binary: &str, root_dir: &str) -> (unit: String)
    ensures
        unit@ == validator_manager_service_text(user@, stever_binary@, root_dir@),
{
    let mut unit = String::from_str(VALIDATOR_MANAGER_SERVICE_HEAD);
    unit.append(user);
    unit.append(VALIDATOR_MANAGER_SERVICE_EXEC);
    unit.append(stever_binary);
    unit.append(VALIDATOR_MANAGER_SERVICE_ROOT);
    unit.append(root_dir);
    unit.append(VALIDATOR_MANAGER_SERVICE_TAIL);
    unit
}

} // verus!
