//! Recurring background maintenance of a federated content platform: the
//! schedule that decides which task is due, and the rules each task applies
//! to the store (rank recomputation, activity windows, retention, ban expiry,
//! peer discovery), with the mention queries of the notification table.

pub mod aggregates;
pub mod bans;
pub mod instances;
pub mod mentions;
pub mod retention;
pub mod schedule;
pub mod statements;

pub use aggregates::{in_window, update_hot_ranks, AggregateRow, RankArguments, RankPair, RECENT_WINDOW};
pub use bans::{update_banned_when_expired, CommunityPersonBan, PersonBan};
pub use instances::{nodeinfo_url, update_instance_software, Instance, NodeInfo, NodeInfoSoftware};
pub use mentions::PersonMention;
pub use retention::{clear_old_activities, ActivityRow};
pub use schedule::{Binding, Job, Schedule, Task, DAY, HOUR, MINUTE, WEEK};
pub use statements::{
    active_count_statements, ban_sweep_statements, hot_rank_statements, prune_statement, ActivityWindow,
};
