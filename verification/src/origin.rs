use vstd::prelude::*;

use crate::error::ContractError;

verus! {

/// The key under which a DAO stores the address of its dao-tunnel, the one
/// proxy allowed to relay messages on behalf of other addresses.
pub const DAO_TUNNEL_KEY: &'static str = "dao-tunnel";

/// The address on whose behalf a message acts.
///
/// `sender` sent the message; `relayed_from` is the address it claims to
/// relay for, if any; `dao_tunnel` is the item that the DAO stores under
/// [`DAO_TUNNEL_KEY`] (read only when the message is relayed). A message
/// that is not relayed acts for its sender. A relayed message acts for the
/// address it names, but only when its sender is the DAO's dao-tunnel;
/// otherwise it is refused with `Unauthorized`.
pub fn get_sender_origin(relayed_from: Option<String>, sender: String, dao_tunnel: Option<String>) -> (res: Result<String, ContractError>)
    ensures
        relayed_from is None ==> res == Ok::<String, ContractError>(sender),
        relayed_from matches Some(addr) ==> {
            if dao_tunnel matches Some(tunnel) && tunnel@ == sender@ {
                res == Ok::<String, ContractError>(addr)
            } else {
                res == Err::<String, ContractError>(ContractError::Unauthorized)
            }
        },
{
    match relayed_from {
        Some(addr) => {
            let authorized = match &dao_tunnel {
                Some(tunnel) => *tunnel == sender,
                None => false,
            };
            if authorized {
                Ok(addr)
            } else {
                Err(ContractError::Unauthorized)
            }
        },
        None => Ok(sender),
    }
}

} // verus!
