use maa_types::task::{
    def_facility, def_i32_max, def_rec_time, def_true, AsstTaskParam, CloseDownParams,
    DronesUsage, FightParams, InfrastFacility, InfrastParams, MallParams, RecruitParams,
    RoguelikeParams, StartUpParams,
};

#[test]
fn test_task_param() {
    let param = AsstTaskParam::StartUp(StartUpParams::default());
    assert_eq!(param.name(), "StartUp")
}

#[test]
fn task_names_cover_every_kind() {
    let cases = vec![
        (AsstTaskParam::StartUp(StartUpParams::default()), "StartUp"),
        (AsstTaskParam::CloseDown(CloseDownParams::default()), "CloseDown"),
        (AsstTaskParam::Fight(FightParams::default()), "Fight"),
        (AsstTaskParam::Recruit(RecruitParams::default()), "Recruit"),
        (AsstTaskParam::Infrast(InfrastParams::default()), "Infrast"),
        (AsstTaskParam::Mall(MallParams::default()), "Mall"),
        (AsstTaskParam::Award(CloseDownParams::default()), "Award"),
        (AsstTaskParam::Roguelike(RoguelikeParams::default()), "Roguelike"),
    ];
    for (param, name) in cases {
        assert_eq!(param.name(), name);
        assert!(param.enabled());
    }
}

#[test]
fn enabled_follows_the_flag() {
    let mut p = FightParams::default();
    p.enable = false;
    assert!(!AsstTaskParam::Fight(p).enabled());
}

#[test]
fn default_helpers_give_the_documented_values() {
    assert!(def_true());
    assert_eq!(def_i32_max(), i32::MAX);
    assert_eq!(
        def_rec_time(),
        vec![
            ("3".to_string(), 540),
            ("4".to_string(), 540),
            ("5".to_string(), 540),
            ("6".to_string(), 540),
        ]
    );
    assert_eq!(
        def_facility(),
        vec![
            InfrastFacility::Mfg,
            InfrastFacility::Trade,
            InfrastFacility::Power,
            InfrastFacility::Control,
            InfrastFacility::Reception,
            InfrastFacility::Office,
            InfrastFacility::Dorm,
        ]
    );
}

#[test]
fn fight_defaults() {
    let p = FightParams::default();
    assert!(p.enable);
    assert_eq!(p.stage, None);
    assert_eq!(p.medicine, 0);
    assert_eq!(p.expiring_medicine, 0);
    assert_eq!(p.stone, 0);
    assert_eq!(p.times, i32::MAX);
    assert!(p.drops.is_empty());
    assert!(!p.report_to_penguin);
    assert_eq!(p.penguin_id, None);
    assert!(p.server.is_none());
    assert!(p.client_type.is_none());
    assert!(!p.dr_grandet);
}

#[test]
fn recruit_defaults() {
    let p = RecruitParams::default();
    assert!(p.enable);
    assert!(!p.refresh);
    assert!(p.select.is_empty());
    assert!(p.confirm.is_empty());
    assert_eq!(p.times, 0);
    assert!(p.set_time);
    assert!(!p.expedite);
    assert_eq!(p.expedite_times, i32::MAX);
    assert!(p.skip_robot);
    assert_eq!(p.recruitment_time, def_rec_time());
    assert!(!p.report_to_penguin);
    assert!(!p.report_to_yituliu);
}

#[test]
fn infrast_defaults() {
    let p = InfrastParams::default();
    assert!(p.enable);
    assert_eq!(p.mode, 0);
    assert_eq!(p.facility, def_facility());
    assert_eq!(p.drones, DronesUsage::_NotUse);
    assert_eq!(p.threshold, 300);
    assert!(!p.replenish);
    assert!(p.filename.is_none());
    assert!(p.plan_index.is_none());
}

#[test]
fn mall_and_roguelike_defaults() {
    let m = MallParams::default();
    assert!(m.enable);
    assert!(!m.shopping);
    assert!(m.buy_first.is_none());
    assert!(m.blacklist.is_none());
    assert!(m.force_shopping_if_credit_full);

    let r = RoguelikeParams::default();
    assert!(r.enable);
    assert_eq!(r.starts_count, i32::MAX);
    assert!(r.investment_enabled);
    assert_eq!(r.investments_count, i32::MAX);
    assert!(!r.stop_when_investment_full);
    assert!(r.theme.is_none() && r.squad.is_none() && r.roles.is_none() && r.core_char.is_none());
    assert!(!r.use_support && !r.use_nonfriend_support && !r.refresh_trader_with_dice);
}
