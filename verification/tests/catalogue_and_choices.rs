use bell_casting::alarm::{casting_risk_severity, Severity};
use bell_casting::casting::{
    casting_method_era, casting_method_key, generate_trade_offs, get_casting_method_key_list,
    partition_by_era, select_casting_methods, CastingEra,
};
use bell_casting::materials::{material_key_for_bell_type, select_alloy_keys};
use bell_casting::api::Pagination;
use bell_casting::queries::{
    active_alerts_query, history_limit, history_query, resolve_alert_query, HistoryTable,
};
use bell_casting::strike::{
    generate_strike_tutorial, get_mallet_options, technique_note, MalletHardness, StrikePosition,
};
use bell_casting::tower::{
    wall_material_tip, window_count_tip, GroundSurface, RoofShape, WallMaterial,
};

fn strings(keys: &[&str]) -> Vec<String> {
    keys.iter().map(|k| k.to_string()).collect()
}

fn selected_keys(requested: Option<Vec<String>>) -> Vec<&'static str> {
    select_casting_methods(&requested)
        .into_iter()
        .map(casting_method_key)
        .collect()
}

#[test]
fn test_casting_method_list_complete() {
    let list = get_casting_method_key_list();
    assert!(list.len() >= 6, "至少应有6种工艺");
    assert!(list.iter().any(|k| k.contains("ancient")), "应包含古代工艺");
    assert!(list.iter().any(|k| k.contains("modern")), "应包含现代工艺");
    assert_eq!(list.len(), 8);
    assert_eq!(list[0], "ancient_sand_lost_wax");
    assert_eq!(list[7], "modern_low_pressure");
}

#[test]
fn casting_selection_covers_all_without_list() {
    assert_eq!(select_casting_methods(&None), vec![0, 1, 2, 3, 4, 5, 6, 7]);
    assert_eq!(select_casting_methods(&Some(Vec::new())), vec![0, 1, 2, 3, 4, 5, 6, 7]);
}

#[test]
fn casting_selection_of_a_subset() {
    let chosen = strings(&["ancient_sand_lost_wax", "modern_investment_casting", "modern_centrifugal"]);
    let keys = selected_keys(Some(chosen.clone()));
    assert_eq!(keys.len(), 3);
    for k in &chosen {
        assert!(keys.contains(&k.as_str()));
    }
    let reversed = strings(&["modern_centrifugal", "ancient_sand_lost_wax"]);
    assert_eq!(select_casting_methods(&Some(reversed)), vec![0, 6]);
}

#[test]
fn casting_selection_ignores_unknown_keys() {
    let invalid = strings(&["invalid_method_xyz", "fake_process"]);
    assert!(select_casting_methods(&Some(invalid)).is_empty());
    let mixed = strings(&["fake_process", "modern_resin_sand", "modern_resin_sand"]);
    assert_eq!(select_casting_methods(&Some(mixed)), vec![4]);
}

#[test]
fn casting_methods_split_by_era() {
    let all = select_casting_methods(&None);
    let (ancient, modern) = partition_by_era(&all);
    assert_eq!(ancient, vec![0, 1, 2]);
    assert_eq!(modern, vec![3, 4, 5, 6, 7]);
    let only_ancient = strings(&["ancient_sand_lost_wax", "ancient_clay_piece", "ancient_sand_mold"]);
    let chosen = select_casting_methods(&Some(only_ancient));
    let (ancient, modern) = partition_by_era(&chosen);
    assert_eq!(ancient.len(), 3);
    assert!(modern.is_empty());
    for position in ancient {
        assert_eq!(casting_method_era(position), CastingEra::Ancient);
        assert_eq!(casting_method_era(position).key(), "ancient");
    }
    assert_eq!(CastingEra::Modern.key(), "modern");
}

#[test]
fn casting_trade_offs_are_listed() {
    let advice = generate_trade_offs();
    assert_eq!(advice.len(), 7);
    assert!(advice[0].starts_with("追求极致文化价值与艺术表现力"));
    assert!(advice[6].contains("现代低压铸造"));
}

#[test]
fn material_key_follows_bell_type() {
    assert_eq!(material_key_for_bell_type("战国编钟"), "bronze_qing_qin");
    assert_eq!(material_key_for_bell_type("永乐大钟"), "bronze_yong_le");
    assert_eq!(material_key_for_bell_type("明代朝钟"), "bronze_yong_le");
    assert_eq!(material_key_for_bell_type("清代佛钟"), "bronze_fo_zhong");
    assert_eq!(material_key_for_bell_type("未知类型"), "bronze_qing_qin");
    assert_eq!(material_key_for_bell_type("编钟与佛钟"), "bronze_qing_qin");
}

#[test]
fn alloy_selection() {
    let available = strings(&["bronze_qing_qin", "bronze_yong_le", "bronze_fo_zhong", "high_tin_bronze", "gray_cast_iron"]);
    assert_eq!(select_alloy_keys(&Vec::new(), &available), available);
    let invalid = strings(&["invalid_alloy_123", "nonexistent_material"]);
    assert!(select_alloy_keys(&invalid, &available).is_empty());
    let mixed = strings(&["bronze_qing_qin", "invalid_material", "bronze_yong_le"]);
    assert_eq!(select_alloy_keys(&mixed, &available), strings(&["bronze_qing_qin", "bronze_yong_le"]));
    let repeated = strings(&["gray_cast_iron", "gray_cast_iron"]);
    assert_eq!(select_alloy_keys(&repeated, &available), repeated);
    let again = select_alloy_keys(&mixed, &available);
    assert_eq!(select_alloy_keys(&again, &available), again);
}

#[test]
fn casting_risk_grades() {
    assert_eq!(casting_risk_severity("critical"), Some(Severity::Critical));
    assert_eq!(casting_risk_severity("high"), Some(Severity::Danger));
    assert_eq!(casting_risk_severity("medium"), Some(Severity::Warning));
    assert_eq!(casting_risk_severity("low"), None);
    assert_eq!(casting_risk_severity("HIGH"), None);
    assert_eq!(Severity::Critical.key(), "critical");
    assert_eq!(Severity::Danger.key(), "danger");
    assert_eq!(Severity::Warning.key(), "warning");
}

#[test]
fn strike_keys_resolve_case_insensitively() {
    assert_eq!(StrikePosition::from_key("lip"), StrikePosition::Lip);
    assert_eq!(StrikePosition::from_key("LIP"), StrikePosition::Lip);
    assert_eq!(StrikePosition::from_key("Crown"), StrikePosition::Crown);
    assert_eq!(StrikePosition::from_key("rim"), StrikePosition::Rim);
    assert_eq!(StrikePosition::from_key("invalid_position_xyz"), StrikePosition::Waist);
    assert_eq!(MalletHardness::from_key("METAL"), MalletHardness::Metal);
    assert_eq!(MalletHardness::from_key("soft"), MalletHardness::Soft);
    assert_eq!(MalletHardness::from_key("rubber_mallet_unknown"), MalletHardness::Medium);
    for p in [StrikePosition::Lip, StrikePosition::Waist, StrikePosition::Shoulder, StrikePosition::Crown, StrikePosition::Rim] {
        assert_eq!(StrikePosition::from_key(p.key()), p);
        assert_eq!(StrikePosition::from_key(&p.key().to_uppercase()), p);
    }
    for m in [MalletHardness::Soft, MalletHardness::Medium, MalletHardness::Hard, MalletHardness::Metal] {
        assert_eq!(MalletHardness::from_key(m.key()), m);
    }
}

#[test]
fn strike_names_and_techniques() {
    assert_eq!(StrikePosition::Lip.display_name(), "钟口");
    assert_eq!(StrikePosition::Crown.display_name(), "钟顶");
    assert_eq!(MalletHardness::Metal.display_name(), "金属槌 (铜/铁)");
    assert!(technique_note(StrikePosition::Lip, MalletHardness::Medium).unwrap().contains("经典编钟敲法"));
    assert!(technique_note(StrikePosition::Lip, MalletHardness::Soft).is_some());
    assert!(technique_note(StrikePosition::Waist, MalletHardness::Metal).unwrap().contains("广场"));
    assert!(technique_note(StrikePosition::Shoulder, MalletHardness::Soft).is_some());
    assert!(technique_note(StrikePosition::Crown, MalletHardness::Hard).unwrap().contains("空灵"));
    assert_eq!(technique_note(StrikePosition::Rim, MalletHardness::Hard), None);
    assert_eq!(technique_note(StrikePosition::Lip, MalletHardness::Metal), None);
}

#[test]
fn mallet_options_are_complete() {
    let mallets = get_mallet_options();
    assert_eq!(mallets.len(), 4, "应有4种木槌");
    for (key, name, desc) in &mallets {
        assert!(!key.is_empty());
        assert!(!name.is_empty());
        assert!(!desc.is_empty());
    }
    let keys: Vec<&str> = mallets.iter().map(|(k, _, _)| *k).collect();
    assert_eq!(keys, vec!["soft", "medium", "hard", "metal"]);
}

#[test]
fn test_strike_tutorial_completeness() {
    let tutorial = generate_strike_tutorial();
    assert!(!tutorial.is_empty(), "教程不应为空");
    assert!(tutorial.len() >= 5, "教程至少应有5段");
    let full_text = tutorial.join("\n");
    assert!(full_text.contains("握法") || full_text.contains("握槌"), "教程应包含握法");
    assert!(full_text.contains("力度"), "教程应包含力度");
    assert!(full_text.contains("位置"), "教程应包含位置");
    assert!(full_text.contains("编钟") || full_text.contains("双音"), "教程应包含编钟内容");
    assert_eq!(tutorial.len(), 32);
}

#[test]
fn history_queries_are_exact() {
    let id = "6f0c1b2a-0000-4000-8000-000000000001";
    assert_eq!(
        history_query(HistoryTable::SensorReadings, id, 100),
        "SELECT * FROM sensor_readings WHERE bell_id = toUUID('6f0c1b2a-0000-4000-8000-000000000001')\n             ORDER BY timestamp DESC LIMIT 100"
    );
    assert_eq!(
        history_query(HistoryTable::CastingProcess, "x", 7),
        "SELECT * FROM casting_process WHERE bell_id = toUUID('x')\n             ORDER BY timestamp DESC LIMIT 7"
    );
    assert!(history_query(HistoryTable::CastingSimulation, "x", 20).contains("FROM casting_simulation"));
    assert!(history_query(HistoryTable::AcousticSimulation, "x", 0).ends_with("LIMIT 0"));
    assert_eq!(
        resolve_alert_query(id),
        "ALTER TABLE alerts UPDATE resolved = true, resolved_at = now()\n             WHERE alert_id = toUUID('6f0c1b2a-0000-4000-8000-000000000001')"
    );
}

#[test]
fn tower_surfaces_are_recognised() {
    assert_eq!(WallMaterial::from_name("brick"), WallMaterial::Brick);
    assert_eq!(WallMaterial::from_name("adobe"), WallMaterial::Adobe);
    assert_eq!(WallMaterial::from_name("glass"), WallMaterial::Other);
    assert_eq!(WallMaterial::from_name("Brick"), WallMaterial::Other);
    assert_eq!(RoofShape::from_style("庑殿顶"), RoofShape::Hipped);
    assert_eq!(RoofShape::from_style("十字歇山顶"), RoofShape::Hipped);
    assert_eq!(RoofShape::from_style("攒尖"), RoofShape::Pagoda);
    assert_eq!(RoofShape::from_style("dome"), RoofShape::Dome);
    assert_eq!(RoofShape::from_style("平顶+声学罩"), RoofShape::Other);
    assert_eq!(RoofShape::from_style("hip"), RoofShape::Other);
    assert_eq!(GroundSurface::from_name("marble"), GroundSurface::Marble);
    assert_eq!(GroundSurface::from_name("stone"), GroundSurface::Other);
}

#[test]
fn tower_tips() {
    assert!(wall_material_tip(WallMaterial::Wood).unwrap().starts_with("木质墙体"));
    assert!(wall_material_tip(WallMaterial::Concrete).unwrap().starts_with("混凝土墙面"));
    assert_eq!(wall_material_tip(WallMaterial::Brick), None);
    assert_eq!(
        window_count_tip(2).unwrap(),
        "当前仅2面开窗，建议改为四面或八面对称开窗，以获得更均匀的360度覆盖，消除声学死角"
    );
    assert!(window_count_tip(0).unwrap().starts_with("当前仅0面"));
    assert_eq!(window_count_tip(4), None);
    assert_eq!(window_count_tip(12), None);
}

#[test]
fn history_limits_default_per_table() {
    let unset = Pagination { limit: None };
    assert_eq!(history_limit(unset, HistoryTable::SensorReadings), 100);
    assert_eq!(history_limit(unset, HistoryTable::CastingSimulation), 20);
    assert_eq!(history_limit(unset, HistoryTable::AcousticSimulation), 20);
    assert_eq!(history_limit(unset, HistoryTable::CastingProcess), 50);
    assert_eq!(history_limit(Pagination { limit: Some(3) }, HistoryTable::SensorReadings), 3);
    assert_eq!(
        active_alerts_query(),
        "SELECT * FROM alerts WHERE resolved = false ORDER BY timestamp DESC LIMIT 100"
    );
}
