use omnihub_core::models::{CloudSyncData, ProviderConfig, ProviderType, Workspace};
use omnihub_core::sync_plan::{
    calculate_sync_plan, decide_linked_sync_action, should_keep_local_item_on_cloud_delete,
    LinkedSyncAction, LlmProviderSyncType, SyncTypeHandler,
};

fn cloud(id: &str, name: &str, updated_at: i64) -> CloudSyncData {
    CloudSyncData {
        id: id.to_string(),
        owner_id: "owner".to_string(),
        data_type: "llm_provider".to_string(),
        name: name.to_string(),
        encrypted_data: String::new(),
        key_version: 1,
        checksum: String::new(),
        version: 1,
        updated_at,
        deleted_at: None,
    }
}

fn provider(provider_type: ProviderType, name: &str) -> ProviderConfig {
    ProviderConfig { id: 0, name: name.to_string(), provider_type, ..Default::default() }
}

#[test]
fn calculate_sync_plan_preserves_user_provider_when_cloud_has_same_name() {
    let handler = LlmProviderSyncType;
    let mut local = ProviderConfig::default();
    local.id = 1;
    local.name = "user-openai".to_string();
    local.provider_type = ProviderType::OpenAI;
    local.cloud_id = None;
    local.updated_at = 1_700_000_000;
    let local_items = vec![local.clone()];
    let c = cloud("cloud-uuid-1", "user-openai", 1_699_000_000_000);
    let cloud_data_list = vec![c.clone()];
    let cloud_name_map = vec![(c.id.clone(), c.name.clone())];
    let pending_cloud_ids: Vec<String> = Vec::new();

    let plan = calculate_sync_plan(&pending_cloud_ids, &handler, &local_items, &cloud_data_list, &cloud_name_map)
        .expect("plan");
    assert_eq!(plan.to_upload.len(), 1);
    assert_eq!(plan.to_upload[0].id, local.id);
    assert!(plan.to_update_local.is_empty());
    assert!(plan.to_update_cloud.is_empty());
}

#[test]
fn calculate_sync_plan_keeps_builtin_provider_unlinked_for_name_backfill() {
    let handler = LlmProviderSyncType;
    let mut local = ProviderConfig::default();
    local.id = 2;
    local.name = "OnetCli AI".to_string();
    local.provider_type = ProviderType::OnetCli;
    local.cloud_id = None;
    let local_items = vec![local.clone()];
    let c = cloud("cloud-uuid-2", "OnetCli AI", 1_699_000_000_000);
    let cloud_data_list = vec![c.clone()];
    let cloud_name_map = vec![(c.id.clone(), c.name.clone())];
    let pending_cloud_ids: Vec<String> = Vec::new();

    let plan = calculate_sync_plan(&pending_cloud_ids, &handler, &local_items, &cloud_data_list, &cloud_name_map)
        .expect("plan");
    assert!(plan.to_upload.is_empty());
    assert!(plan.to_download.is_empty());
}

#[test]
fn calculate_sync_plan_skips_download_for_sync_disabled_linked_provider() {
    let handler = LlmProviderSyncType;
    let mut local = ProviderConfig::default();
    local.id = 3;
    local.name = "disabled-openai".to_string();
    local.provider_type = ProviderType::OpenAI;
    local.cloud_id = Some("cloud-uuid-disabled".to_string());
    local.sync_enabled = false;
    local.updated_at = 1_700_000_000;
    let local_items = vec![local];
    let c = cloud("cloud-uuid-disabled", "disabled-openai", 1_701_000_000_000);
    let cloud_data_list = vec![c.clone()];
    let cloud_name_map = vec![(c.id.clone(), c.name.clone())];
    let pending_cloud_ids: Vec<String> = Vec::new();

    let plan = calculate_sync_plan(&pending_cloud_ids, &handler, &local_items, &cloud_data_list, &cloud_name_map)
        .expect("plan");
    assert!(plan.to_upload.is_empty());
    assert!(plan.to_update_cloud.is_empty());
    assert!(plan.to_update_local.is_empty());
    assert!(plan.to_download.is_empty());
}

#[test]
fn non_sync_state_items_keep_original_timestamp_comparison() {
    assert_eq!(decide_linked_sync_action(false, 100, Some(90), 100), LinkedSyncAction::Idle);
}

#[test]
fn sync_state_items_prefer_local_when_unsynced_timestamps_are_equal() {
    assert_eq!(decide_linked_sync_action(true, 100, None, 100), LinkedSyncAction::UpdateCloud);
}

#[test]
fn sync_state_items_detect_cloud_side_changes_since_last_sync() {
    assert_eq!(decide_linked_sync_action(true, 100, Some(100), 101), LinkedSyncAction::UpdateLocal);
}

#[test]
fn sync_state_items_stay_idle_when_nothing_changed_since_last_sync() {
    assert_eq!(decide_linked_sync_action(true, 100, Some(100), 100), LinkedSyncAction::Idle);
}

#[test]
fn cloud_delete_should_preserve_local_sync_state_item_when_local_has_unsynced_update() {
    let mut workspace = Workspace::new("本地已更新工作区".to_string());
    workspace.updated_at = Some(200);
    workspace.last_synced_at = Some(100);
    assert!(should_keep_local_item_on_cloud_delete(&workspace));
}

#[test]
fn cloud_delete_should_remove_local_sync_state_item_when_local_is_clean() {
    let mut workspace = Workspace::new("本地已同步工作区".to_string());
    workspace.updated_at = Some(100);
    workspace.last_synced_at = Some(100);
    assert!(!should_keep_local_item_on_cloud_delete(&workspace));
}

#[test]
fn calculate_sync_plan_idle_when_both_unchanged() {
    let handler = LlmProviderSyncType;
    let mut local = ProviderConfig::default();
    local.id = 10;
    local.name = "stable".to_string();
    local.provider_type = ProviderType::OnetCli;
    local.cloud_id = Some("cloud-stable".to_string());
    local.updated_at = 1_700_000_000;
    let local_items = vec![local];
    let c = cloud("cloud-stable", "stable", 1_700_000_000_000);
    let cloud_data_list = vec![c.clone()];
    let cloud_name_map = vec![(c.id.clone(), c.name.clone())];
    let pending_cloud_ids: Vec<String> = Vec::new();

    let plan = calculate_sync_plan(&pending_cloud_ids, &handler, &local_items, &cloud_data_list, &cloud_name_map)
        .expect("plan");
    assert!(plan.to_upload.is_empty());
    assert!(plan.to_update_cloud.is_empty());
    assert!(plan.to_download.is_empty());
    assert!(plan.to_update_local.is_empty());
}

#[test]
fn calculate_sync_plan_dual_change_picks_higher_timestamp() {
    let handler = LlmProviderSyncType;
    let mut local = ProviderConfig::default();
    local.id = 11;
    local.name = "race".to_string();
    local.provider_type = ProviderType::OpenAI;
    local.cloud_id = Some("cloud-race".to_string());
    local.updated_at = 1_700_000_200;
    let local_items = vec![local.clone()];
    let c = cloud("cloud-race", "race", 1_700_000_100_000);
    let cloud_data_list = vec![c.clone()];
    let cloud_name_map = vec![(c.id.clone(), c.name.clone())];
    let pending_cloud_ids: Vec<String> = Vec::new();

    let plan = calculate_sync_plan(&pending_cloud_ids, &handler, &local_items, &cloud_data_list, &cloud_name_map)
        .expect("plan");
    assert!(plan.to_update_local.is_empty());
    assert_eq!(plan.to_update_cloud.len(), 1);
    assert_eq!(plan.to_update_cloud[0].0.id, local.id);
}

#[test]
fn calculate_sync_plan_downloads_unseen_cloud_item() {
    let handler = LlmProviderSyncType;
    let mut local = ProviderConfig::default();
    local.id = 13;
    local.name = "preexisting-local".to_string();
    local.provider_type = ProviderType::OnetCli;
    local.cloud_id = Some("cloud-preexisting".to_string());
    local.updated_at = 1_700_000_000;
    let local_items = vec![local];
    let pre = cloud("cloud-preexisting", "preexisting-local", 1_700_000_000_000);
    let unseen = cloud("cloud-brand-new", "brand-new", 1_700_000_000_000);
    let cloud_data_list = vec![pre.clone(), unseen.clone()];
    let cloud_name_map = vec![(pre.id.clone(), pre.name.clone()), (unseen.id.clone(), unseen.name.clone())];
    let pending_cloud_ids: Vec<String> = Vec::new();

    let plan = calculate_sync_plan(&pending_cloud_ids, &handler, &local_items, &cloud_data_list, &cloud_name_map)
        .expect("plan");
    assert_eq!(plan.to_download.len(), 1);
    assert_eq!(plan.to_download[0].id, "cloud-brand-new");
    assert!(plan.to_update_local.is_empty());
}

#[test]
fn calculate_sync_plan_sync_disabled_linked_item_is_idle() {
    let handler = LlmProviderSyncType;
    let mut local = ProviderConfig::default();
    local.id = 12;
    local.name = "paused".to_string();
    local.provider_type = ProviderType::OpenAI;
    local.cloud_id = Some("cloud-paused".to_string());
    local.sync_enabled = false;
    local.updated_at = 1_700_000_500;
    let local_items = vec![local];
    let c = cloud("cloud-paused", "paused", 1_700_000_400_000);
    let cloud_data_list = vec![c.clone()];
    let cloud_name_map = vec![(c.id.clone(), c.name.clone())];
    let pending_cloud_ids: Vec<String> = Vec::new();

    let plan = calculate_sync_plan(&pending_cloud_ids, &handler, &local_items, &cloud_data_list, &cloud_name_map)
        .expect("plan");
    assert!(plan.to_upload.is_empty());
    assert!(plan.to_update_cloud.is_empty());
    assert!(plan.to_update_local.is_empty());
    assert!(plan.to_download.is_empty());
}

#[test]
fn pending_deletion_blocks_download() {
    let handler = LlmProviderSyncType;
    let local_items: Vec<ProviderConfig> = Vec::new();
    let c = cloud("cloud-gone", "gone", 1_700_000_000_000);
    let cloud_data_list = vec![c.clone()];
    let cloud_name_map = vec![(c.id.clone(), c.name.clone())];
    let pending_cloud_ids = vec!["cloud-gone".to_string()];
    let plan = calculate_sync_plan(&pending_cloud_ids, &handler, &local_items, &cloud_data_list, &cloud_name_map)
        .expect("plan");
    assert!(plan.to_download.is_empty());
}

#[test]
fn decide_action_non_sync_state_equal_timestamps_is_none() {
    assert_eq!(decide_linked_sync_action(false, 1_700_000_000, None, 1_700_000_000), LinkedSyncAction::Idle);
}

#[test]
fn decide_action_non_sync_state_cloud_ahead_updates_local() {
    assert_eq!(
        decide_linked_sync_action(false, 1_700_000_000, Some(2_000_000_000), 1_700_000_500),
        LinkedSyncAction::UpdateLocal
    );
}

#[test]
fn decide_action_sync_state_never_synced_cloud_ahead_updates_local() {
    assert_eq!(decide_linked_sync_action(true, 1_700_000_000, None, 1_700_000_500), LinkedSyncAction::UpdateLocal);
}

#[test]
fn decide_action_sync_state_never_synced_local_ahead_updates_cloud() {
    assert_eq!(decide_linked_sync_action(true, 1_700_000_500, None, 1_700_000_000), LinkedSyncAction::UpdateCloud);
}

#[test]
fn builtin_provider_should_link_by_name() {
    let handler = LlmProviderSyncType;
    let item = provider(ProviderType::OmniHub, "OmniHub AI");
    assert!(handler.should_link_unlinked_local_by_name(&item));
}

#[test]
fn user_providers_should_not_link_by_name() {
    let handler = LlmProviderSyncType;
    for pt in ProviderType::user_configurable() {
        let item = provider(pt, "user-provider");
        assert!(!handler.should_link_unlinked_local_by_name(&item), "{:?}", pt);
    }
}

#[test]
fn user_configurable_provider_enum_has_no_builtin_member() {
    let user_configurable = ProviderType::user_configurable();
    assert_eq!(user_configurable.len(), 11);
    assert!(user_configurable.iter().all(|pt| !pt.is_builtin()));
}

#[test]
fn builtin_provider_with_custom_name_still_links() {
    let handler = LlmProviderSyncType;
    let item = provider(ProviderType::OmniHub, "用户重命名后的 OmniHub");
    assert!(handler.should_link_unlinked_local_by_name(&item));
}

#[test]
fn every_provider_type_classified_consistently() {
    let all = ProviderType::all();
    assert_eq!(all.len(), 12);
    let builtin_members: Vec<ProviderType> = all.iter().copied().filter(|p| p.is_builtin()).collect();
    assert_eq!(builtin_members, vec![ProviderType::OmniHub]);
    let handler = LlmProviderSyncType;
    for pt in all {
        let item = provider(pt, "any-name");
        assert_eq!(handler.should_link_unlinked_local_by_name(&item), pt.is_builtin(), "{:?}", pt);
    }
}
