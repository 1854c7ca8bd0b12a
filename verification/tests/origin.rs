use cw_proposals::error::ContractError;
use cw_proposals::origin::{get_sender_origin, DAO_TUNNEL_KEY};

#[test]
fn unrelayed_message_acts_for_sender() {
    assert_eq!(
        get_sender_origin(None, "ekez".to_string(), None),
        Ok("ekez".to_string())
    );
    assert_eq!(
        get_sender_origin(None, "ekez".to_string(), Some("tunnel".to_string())),
        Ok("ekez".to_string())
    );
}

#[test]
fn relayed_message_from_tunnel_acts_for_relayed_address() {
    assert_eq!(
        get_sender_origin(
            Some("remote-user".to_string()),
            "tunnel".to_string(),
            Some("tunnel".to_string())
        ),
        Ok("remote-user".to_string())
    );
}

#[test]
fn relayed_message_from_other_sender_is_unauthorized() {
    assert_eq!(
        get_sender_origin(
            Some("remote-user".to_string()),
            "ekez".to_string(),
            Some("tunnel".to_string())
        ),
        Err(ContractError::Unauthorized)
    );
}

#[test]
fn relayed_message_without_tunnel_is_unauthorized() {
    assert_eq!(
        get_sender_origin(Some("remote-user".to_string()), "tunnel".to_string(), None),
        Err(ContractError::Unauthorized)
    );
}

#[test]
fn tunnel_key() {
    assert_eq!(DAO_TUNNEL_KEY, "dao-tunnel");
}
