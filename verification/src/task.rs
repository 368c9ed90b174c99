//! Task parameter records for the outbound builder: one record per task
//! kind, each with a fixed default for every field. The records are plain
//! data; serialising them for the engine is the caller's concern.

use vstd::prelude::*;

verus! {

/// The default of every flag that starts enabled.
pub fn def_true() -> (r: bool)
    ensures
        r == true,
{
    true
}

/// The default of every counter that starts unlimited.
pub fn def_i32_max() -> (r: i32)
    ensures
        r == i32::MAX,
{
    i32::MAX
}

/// The game client a task signs in to; `Txwy` is written `txwy` on the
/// wire.
#[derive(Debug, Clone, Copy, PartialEq, Eq, Structural)]
pub enum ClientType {
    Official,
    Bilibili,
    Txwy,
    YoStarEN,
    YoStarJP,
    YoStarKR,
}

/// Parameters of the start-up task.
#[derive(Debug, PartialEq)]
pub struct StartUpParams {
    pub enable: bool,
    pub client_type: Option<ClientType>,
    pub start_game_enabled: bool,
}

impl Default for StartUpParams {
    /// The fixed defaults: enabled, no client named, the game not started.
    fn default() -> (d: Self)
        ensures
            d.enable == true,
            d.client_type is None,
            d.start_game_enabled == false,
    {
        StartUpParams { enable: def_true(), client_type: None, start_game_enabled: false }
    }
}

/// Parameters of the close-down task.
#[derive(Debug, PartialEq)]
pub struct CloseDownParams {
    pub enable: bool,
}

impl Default for CloseDownParams {
    /// The fixed default: enabled.
    fn default() -> (d: Self)
        ensures
            d.enable == true,
    {
        CloseDownParams { enable: def_true() }
    }
}

/// The server a fight or recruit report goes to.
#[derive(Debug, Clone, Copy, PartialEq, Eq, Structural)]
pub enum Server {
    CN,
    US,
    JP,
    KR,
}

/// Parameters of the fight task. The item-to-count plan `drops` is held as
/// key/value pairs and serialised as an object; the wire name of
/// `dr_grandet` is the capitalised `DrGrandet`, kept verbatim for
/// compatibility.
#[derive(Debug, PartialEq)]
pub struct FightParams {
    pub enable: bool,
    pub stage: Option<String>,
    pub medicine: i32,
    pub expiring_medicine: i32,
    pub stone: i32,
    pub times: i32,
    pub drops: Vec<(String, i32)>,
    pub report_to_penguin: bool,
    pub penguin_id: Option<String>,
    pub server: Option<Server>,
    pub client_type: Option<ClientType>,
    pub dr_grandet: bool,
}

impl Default for FightParams {
    /// The fixed defaults: enabled, no stage named, no consumables, an
    /// unlimited number of runs, nothing to report.
    fn default() -> (d: Self)
        ensures
            d.enable == true,
            d.stage is None,
            d.medicine == 0,
            d.expiring_medicine == 0,
            d.stone == 0,
            d.times == i32::MAX,
            d.drops.deep_view() == Seq::<(Seq<char>, i32)>::empty(),
            d.report_to_penguin == false,
            d.penguin_id is None,
            d.server is None,
            d.client_type is None,
            d.dr_grandet == false,
    {
        let drops: Vec<(String, i32)> = Vec::new();
        proof {
            assert(drops.deep_view() =~= Seq::<(Seq<char>, i32)>::empty());
        }
        FightParams {
            enable: def_true(),
            stage: None,
            medicine: 0,
            expiring_medicine: 0,
            stone: 0,
            times: def_i32_max(),
            drops,
            report_to_penguin: false,
            penguin_id: None,
            server: None,
            client_type: None,
            dr_grandet: false,
        }
    }
}

/// The default recruitment times: nine minutes for each of the four
/// star-count slots `3` to `6`.
pub open spec fn default_recruitment_times() -> Seq<(Seq<char>, i32)> {
    seq![("3"@, 540i32), ("4"@, 540i32), ("5"@, 540i32), ("6"@, 540i32)]
}

/// The default recruitment-time table: 540 seconds for each of the slots
/// `3` to `6`.
pub fn def_rec_time() -> (r: Vec<(String, i32)>)
    ensures
        r.deep_view() == default_recruitment_times(),
{
    let mut r: Vec<(String, i32)> = Vec::new();
    r.push((String::from_str("3"), 540));
    r.push((String::from_str("4"), 540));
    r.push((String::from_str("5"), 540));
    r.push((String::from_str("6"), 540));
    proof {
        assert(r.deep_view() =~= default_recruitment_times());
    }
    r
}

/// Parameters of the recruit task. The slot-to-seconds table
/// `recruitment_time` is held as key/value pairs and serialised as an
/// object.
#[derive(Debug, PartialEq)]
pub struct RecruitParams {
    pub enable: bool,
    pub refresh: bool,
    pub select: Vec<i32>,
    pub confirm: Vec<i32>,
    pub times: i32,
    pub set_time: bool,
    pub expedite: bool,
    pub expedite_times: i32,
    pub skip_robot: bool,
    pub recruitment_time: Vec<(String, i32)>,
    pub report_to_penguin: bool,
    pub penguin_id: Option<String>,
    pub report_to_yituliu: bool,
    pub yituliu_id: Option<String>,
    pub server: Option<Server>,
}

impl Default for RecruitParams {
    /// The fixed defaults: enabled, no refreshing, nothing selected, timers
    /// set, unlimited expedited draws, robots skipped, the standard
    /// recruitment times, nothing to report.
    fn default() -> (d: Self)
        ensures
            d.enable == true,
            d.refresh == false,
            d.select@ == Seq::<i32>::empty(),
            d.confirm@ == Seq::<i32>::empty(),
            d.times == 0,
            d.set_time == true,
            d.expedite == false,
            d.expedite_times == i32::MAX,
            d.skip_robot == true,
            d.recruitment_time.deep_view() == default_recruitment_times(),
            d.report_to_penguin == false,
            d.penguin_id is None,
            d.report_to_yituliu == false,
            d.yituliu_id is None,
            d.server is None,
    {
        let select: Vec<i32> = Vec::new();
        let confirm: Vec<i32> = Vec::new();
        proof {
            assert(select@ =~= Seq::<i32>::empty());
            assert(confirm@ =~= Seq::<i32>::empty());
        }
        RecruitParams {
            enable: def_true(),
            refresh: false,
            select,
            confirm,
            times: 0,
            set_time: def_true(),
            expedite: false,
            expedite_times: def_i32_max(),
            skip_robot: def_true(),
            recruitment_time: def_rec_time(),
            report_to_penguin: false,
            penguin_id: None,
            report_to_yituliu: false,
            yituliu_id: None,
            server: None,
        }
    }
}

/// The facilities an infrastructure shift can manage.
#[derive(Debug, Clone, Copy, PartialEq, Eq, Structural)]
pub enum InfrastFacility {
    Mfg,
    Trade,
    Power,
    Control,
    Reception,
    Office,
    Dorm,
}

/// What the drones are spent on.
#[derive(Debug, Clone, Copy, PartialEq, Eq, Structural)]
pub enum DronesUsage {
    _NotUse,
    Money,
    SyntheticJade,
    CombatRecord,
    PureGold,
    OriginStone,
    Chip,
}

impl Default for DronesUsage {
    /// The fixed default: drones are not used.
    fn default() -> (d: Self)
        ensures
            d == DronesUsage::_NotUse,
    {
        DronesUsage::_NotUse
    }
}

/// The default facility rotation, in its fixed order.
pub open spec fn default_facilities() -> Seq<InfrastFacility> {
    seq![
        InfrastFacility::Mfg,
        InfrastFacility::Trade,
        InfrastFacility::Power,
        InfrastFacility::Control,
        InfrastFacility::Reception,
        InfrastFacility::Office,
        InfrastFacility::Dorm,
    ]
}

/// The default facility rotation: every facility once, in the fixed order.
pub fn def_facility() -> (r: Vec<InfrastFacility>)
    ensures
        r@ == default_facilities(),
{
    let mut r: Vec<InfrastFacility> = Vec::new();
    r.push(InfrastFacility::Mfg);
    r.push(InfrastFacility::Trade);
    r.push(InfrastFacility::Power);
    r.push(InfrastFacility::Control);
    r.push(InfrastFacility::Reception);
    r.push(InfrastFacility::Office);
    r.push(InfrastFacility::Dorm);
    proof {
        assert(r@ =~= default_facilities());
    }
    r
}

/// Parameters of the infrastructure task. The dorm trust threshold is held
/// in thousandths, so that the record stays plain integer data; its default
/// of 300 stands for the fraction 0.3.
#[derive(Debug, PartialEq)]
pub struct InfrastParams {
    pub enable: bool,
    pub mode: i32,
    pub facility: Vec<InfrastFacility>,
    pub drones: DronesUsage,
    pub threshold: u32,
    pub replenish: bool,
    pub dorm_notstationed_enabled: bool,
    pub dorm_trust_enabled: bool,
    pub filename: Option<String>,
    pub plan_index: Option<i32>,
}

impl Default for InfrastParams {
    /// The fixed defaults: enabled, the full facility rotation, drones
    /// unused, a threshold of three tenths, no custom plan.
    fn default() -> (d: Self)
        ensures
            d.enable == true,
            d.mode == 0,
            d.facility@ == default_facilities(),
            d.drones == DronesUsage::_NotUse,
            d.threshold == 300u32,
            d.replenish == false,
            d.dorm_notstationed_enabled == false,
            d.dorm_trust_enabled == false,
            d.filename is None,
            d.plan_index is None,
    {
        InfrastParams {
            enable: def_true(),
            mode: 0,
            facility: def_facility(),
            drones: DronesUsage::_NotUse,
            threshold: 300,
            replenish: false,
            dorm_notstationed_enabled: false,
            dorm_trust_enabled: false,
            filename: None,
            plan_index: None,
        }
    }
}

/// Parameters of the mall task.
#[derive(Debug, PartialEq)]
pub struct MallParams {
    pub enable: bool,
    pub shopping: bool,
    pub buy_first: Option<Vec<String>>,
    pub blacklist: Option<Vec<String>>,
    pub force_shopping_if_credit_full: bool,
}

impl Default for MallParams {
    /// The fixed defaults: enabled, no shopping lists, shopping forced when
    /// credit is full.
    fn default() -> (d: Self)
        ensures
            d.enable == true,
            d.shopping == false,
            d.buy_first is None,
            d.blacklist is None,
            d.force_shopping_if_credit_full == true,
    {
        MallParams {
            enable: def_true(),
            shopping: false,
            buy_first: None,
            blacklist: None,
            force_shopping_if_credit_full: def_true(),
        }
    }
}

/// The award task takes the same parameters as the close-down task.
pub type AwardParams = CloseDownParams;

/// Parameters of the roguelike task.
#[derive(Debug, PartialEq)]
pub struct RoguelikeParams {
    pub enable: bool,
    pub theme: Option<String>,
    pub mode: i32,
    pub starts_count: i32,
    pub investment_enabled: bool,
    pub investments_count: i32,
    pub stop_when_investment_full: bool,
    pub squad: Option<String>,
    pub roles: Option<String>,
    pub core_char: Option<String>,
    pub use_support: bool,
    pub use_nonfriend_support: bool,
    pub refresh_trader_with_dice: bool,
}

impl Default for RoguelikeParams {
    /// The fixed defaults: enabled, unlimited starts and investments,
    /// nothing else chosen.
    fn default() -> (d: Self)
        ensures
            d.enable == true,
            d.theme is None,
            d.mode == 0,
            d.starts_count == i32::MAX,
            d.investment_enabled == true,
            d.investments_count == i32::MAX,
            d.stop_when_investment_full == false,
            d.squad is None,
            d.roles is None,
            d.core_char is None,
            d.use_support == false,
            d.use_nonfriend_support == false,
            d.refresh_trader_with_dice == false,
    {
        RoguelikeParams {
            enable: def_true(),
            theme: None,
            mode: 0,
            starts_count: def_i32_max(),
            investment_enabled: def_true(),
            investments_count: def_i32_max(),
            stop_when_investment_full: false,
            squad: None,
            roles: None,
            core_char: None,
            use_support: false,
            use_nonfriend_support: false,
            refresh_trader_with_dice: false,
        }
    }
}

/// One task invocation for the engine: which task kind, with its
/// parameters.
#[derive(Debug, PartialEq)]
pub enum AsstTaskParam {
    StartUp(StartUpParams),
    CloseDown(CloseDownParams),
    Fight(FightParams),
    Recruit(RecruitParams),
    Infrast(InfrastParams),
    Mall(MallParams),
    Award(AwardParams),
    Roguelike(RoguelikeParams),
}

impl AsstTaskParam {
    /// The name of the task kind, as the engine expects it.
    pub open spec fn spec_name(&self) -> Seq<char> {
        match self {
            AsstTaskParam::StartUp(_) => "StartUp"@,
            AsstTaskParam::CloseDown(_) => "CloseDown"@,
            AsstTaskParam::Fight(_) => "Fight"@,
            AsstTaskParam::Recruit(_) => "Recruit"@,
            AsstTaskParam::Infrast(_) => "Infrast"@,
            AsstTaskParam::Mall(_) => "Mall"@,
            AsstTaskParam::Award(_) => "Award"@,
            AsstTaskParam::Roguelike(_) => "Roguelike"@,
        }
    }

    /// Whether the carried parameters are enabled.
    pub open spec fn spec_enabled(&self) -> bool {
        match self {
            AsstTaskParam::StartUp(p) => p.enable,
            AsstTaskParam::CloseDown(p) => p.enable,
            AsstTaskParam::Fight(p) => p.enable,
            AsstTaskParam::Recruit(p) => p.enable,
            AsstTaskParam::Infrast(p) => p.enable,
            AsstTaskParam::Mall(p) => p.enable,
            AsstTaskParam::Award(p) => p.enable,
            AsstTaskParam::Roguelike(p) => p.enable,
        }
    }

    /// The name of the task kind.
    pub fn name(&self) -> (r: String)
        ensures
            r@ == self.spec_name(),
    {
        match self {
            AsstTaskParam::StartUp(_) => String::from_str("StartUp"),
            AsstTaskParam::CloseDown(_) => String::from_str("CloseDown"),
            AsstTaskParam::Fight(_) => String::from_str("Fight"),
            AsstTaskParam::Recruit(_) => String::from_str("Recruit"),
            AsstTaskParam::Infrast(_) => String::from_str("Infrast"),
            AsstTaskParam::Mall(_) => String::from_str("Mall"),
            AsstTaskParam::Award(_) => String::from_str("Award"),
            AsstTaskParam::Roguelike(_) => String::from_str("Roguelike"),
        }
    }

    /// Whether the task is enabled.
    pub fn enabled(&self) -> (r: bool)
        ensures
            r == self.spec_enabled(),
    {
        match self {
            AsstTaskParam::StartUp(p) => p.enable,
            AsstTaskParam::CloseDown(p) => p.enable,
            AsstTaskParam::Fight(p) => p.enable,
            AsstTaskParam::Recruit(p) => p.enable,
            AsstTaskParam::Infrast(p) => p.enable,
            AsstTaskParam::Mall(p) => p.enable,
            AsstTaskParam::Award(p) => p.enable,
            AsstTaskParam::Roguelike(p) => p.enable,
        }
    }
}

} // verus!
