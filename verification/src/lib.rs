//! Quorum-governed membership groups.
//!
//! A group keeps two ranks of members, counters for each rank, and a
//! participation rate.  Members move between ranks, withdraw treasury funds,
//! or reconfigure the group only through proposals that other members vote
//! on; a proposal decides the moment the vote count first reaches the
//! group's quorum threshold.  A fixed-capacity registry of administrators
//! creates, freezes and reconfigures groups.
//!
//! Storage, signature verification, token movement and event delivery are
//! the environment's job: every function here works on plain records and
//! timestamps handed in by the caller, mutates them atomically (no record
//! changes when an error is returned), and reports requested token movements
//! as values.

pub mod admin;
pub mod administration;
pub mod codec;
pub mod errors;
pub mod events;
pub mod group;
pub mod identity;
pub mod laws;
pub mod member;
pub mod membership;
pub mod proposal;
pub mod signature;
pub mod submission;
pub mod tokens;
pub mod treasury;
pub mod utils;
pub mod voting;

pub use crate::admin::{holds_admin, swap_removed, AdminAccount, ADMIN_CAPACITY};
pub use crate::administration::{add_admin, create_group, freeze_group, initialize, remove_admin, reset_group, thaw_group, upgrade_group};
pub use crate::codec::{lemma_model_determines_record, lemma_proposal_round_trip, proposal_from_bytes, proposal_model, proposal_to_bytes, spec_decode, spec_encode, ProposalModel, TypeModel};
pub use crate::errors::GroupError;
pub use crate::events::{event_type_of, DepositTokenEvent, ExecuteProposalEvent, ExitGroupEvent, FreezeGroupEvent, JoinGroupEvent, ProposalEventType, ProposalResult, SignProposalEvent, SubmitProposalEvent, ThawGroupEvent, UpdateProposalEvent, UpgradeGroupEvent};
pub use crate::group::{rate_applied, quorum_threshold, GroupAccount, ParticipateRate};
pub use crate::identity::{id_eq, zero_id, zero_identity, Identity};
pub use crate::laws::{lemma_exit_preserves_manager_bound, lemma_join_preserves_manager_bound, lemma_quorum_decision_rule, lemma_sign_follows_quorum_rule, lemma_sign_preserves_manager_bound, lemma_sign_status_monotonic, lemma_update_status_monotonic, manager_bound_ok, status_order_respected};
pub use crate::member::{MemberAccount, Position};
pub use crate::membership::{exit_effect, exit_group, is_bootstrap, join_effect, join_group, reset_member};
pub use crate::proposal::{is_terminal, ProposalAccount, ProposalStatus, ProposalType};
pub use crate::signature::{SignType, SignatureAccount};
pub use crate::submission::{close_proposal, close_signature, revoke_proposal, submit_error, submit_guard_ok, submit_precheck_ok, submit_proposal, submitted_proposal, update_proposal, CLOSE_GRACE, REVOKE_WINDOW};
pub use crate::tokens::{TokenAccountInfo, TokenBurn, TokenTransfer};
pub use crate::treasury::{deposit_token, DepositToken};
pub use crate::utils::{is_admin, is_not_admin, is_not_outdated, is_proposal_allow_close, is_valid_deadline, is_valid_elapse, is_valid_limit, TIME_ELAPSE};
pub use crate::voting::{bene_after, evaluate_quorum, group_after, quorum_decision, sign_decides, sign_error, sign_execute_ok, sign_ok, sign_passes, sign_proposal, status_after, transfer_after, votes_against_after, votes_for_after, SignOutcome, SignProposal, WithdrawAccounts};
