use scheduled_tasks::{
    active_count_statements, ban_sweep_statements, hot_rank_statements, nodeinfo_url, prune_statement,
    update_instance_software, ActivityWindow, Instance, NodeInfo, NodeInfoSoftware,
};

fn instance(id: i32, domain: &str) -> Instance {
    Instance {
        id,
        domain: domain.to_string(),
        software: Some("old".to_string()),
        version: Some("0.1".to_string()),
        updated: Some(5),
    }
}

fn info(name: &str, version: &str) -> NodeInfo {
    NodeInfo {
        software: Some(NodeInfoSoftware { name: Some(name.to_string()), version: Some(version.to_string()) }),
    }
}

#[test]
fn nodeinfo_url_of_domain() {
    assert_eq!(nodeinfo_url("lemmy.ml"), "https://lemmy.ml/nodeinfo/2.0.json");
}

#[test]
fn unreachable_peer_is_left_alone() {
    let mut instances = vec![instance(1, "a.tld"), instance(2, "b.tld"), instance(3, "c.tld")];
    let fetched = vec![Some(info("lemmy", "0.17")), None, Some(info("kbin", "1.0"))];
    update_instance_software(&mut instances, fetched, 99);
    assert_eq!(instances[0].software.as_deref(), Some("lemmy"));
    assert_eq!(instances[0].version.as_deref(), Some("0.17"));
    assert_eq!(instances[0].updated, Some(99));
    assert_eq!(instances[1], instance(2, "b.tld"));
    assert_eq!(instances[2].software.as_deref(), Some("kbin"));
    assert_eq!(instances[2].version.as_deref(), Some("1.0"));
    assert_eq!(instances[2].domain, "c.tld");
}

#[test]
fn document_without_software_clears_fields() {
    let mut i = instance(1, "a.tld");
    i.apply_node_info(Some(NodeInfo { software: None }), 42);
    assert_eq!(i.software, None);
    assert_eq!(i.version, None);
    assert_eq!(i.updated, Some(42));
    assert_eq!(i.domain, "a.tld");
}

#[test]
fn partial_software_block() {
    let mut i = instance(1, "a.tld");
    let doc = NodeInfo { software: Some(NodeInfoSoftware { name: Some("lemmy".to_string()), version: None }) };
    i.apply_node_info(Some(doc), 7);
    assert_eq!(i.software.as_deref(), Some("lemmy"));
    assert_eq!(i.version, None);
}

#[test]
fn window_statements() {
    assert_eq!(
        ActivityWindow::HalfYear.site_active_statement(),
        "update site_aggregates set users_active_half_year = (select * from site_aggregates_activity('6 months'))"
    );
    assert_eq!(
        ActivityWindow::Day.community_active_statement(),
        "update community_aggregates ca set users_active_day = mv.count_ from community_aggregates_activity('1 day') mv where ca.community_id = mv.community_id_"
    );
    let all = active_count_statements();
    assert_eq!(all.len(), 8);
    assert_eq!(all[2], ActivityWindow::Week.site_active_statement());
    assert_eq!(all[5], ActivityWindow::Month.community_active_statement());
    assert_eq!(
        ActivityWindow::all(),
        vec![ActivityWindow::Day, ActivityWindow::Week, ActivityWindow::Month, ActivityWindow::HalfYear]
    );
}

#[test]
fn hot_rank_statement_filters() {
    let recent = hot_rank_statements(true);
    let full = hot_rank_statements(false);
    assert_eq!(full[1], "update comment_aggregates set hot_rank = hot_rank(score, published)");
    assert_eq!(
        recent[1],
        "update comment_aggregates set hot_rank = hot_rank(score, published) where published > now() - interval '1 week'"
    );
    assert_eq!(
        full[2],
        "update community_aggregates set hot_rank = hot_rank(subscribers, published)"
    );
    assert!(recent[0].starts_with("update post_aggregates set hot_rank = hot_rank(score, published), hot_rank_active = hot_rank(score, newest_comment_time_necro)"));
    assert_eq!(recent.len(), 3);
}

#[test]
fn sweep_and_prune_statements() {
    assert_eq!(
        ban_sweep_statements(),
        vec![
            "update person set banned = false where banned = true and ban_expires < now()".to_string(),
            "delete from community_person_ban where expires < now()".to_string(),
        ]
    );
    assert_eq!(prune_statement(), "delete from activity where published < now() - interval '6 months'");
}
