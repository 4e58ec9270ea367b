//! What an app interface tells a client about an installed app: its cells,
//! role by role, and its status.

use vstd::prelude::*;
use vstd::std_specs::convert::FromSpecImpl;
use vstd::string::*;
use crate::call::CellId;

verus! {

/// Why an app was paused.
#[derive(Debug)]
pub enum PausedAppReason {
    Error(String),
}

/// Why an app was disabled.
#[derive(Debug)]
pub enum DisabledAppReason {
    NeverStarted,
    User,
    Error(String),
}

/// The status of an app as the conductor keeps it.
#[derive(Debug)]
pub enum AppStatus {
    Running,
    Paused(PausedAppReason),
    Disabled(DisabledAppReason),
}

/// The status of an app as an app interface shows it.
#[derive(Debug)]
#[allow(inconsistent_fields)]
pub enum AppInfoStatus {
    Paused { reason: PausedAppReason },
    Disabled { reason: DisabledAppReason },
    Running,
}

/// Mathematical model of a reason for which an app does not run.
pub enum ReasonModel {
    NeverStarted,
    User,
    Error(Seq<char>),
}

/// Mathematical model of an app's status, in either form.
pub enum AppStatusModel {
    Running,
    Paused(ReasonModel),
    Disabled(ReasonModel),
}

impl View for PausedAppReason {
    type V = ReasonModel;

    open spec fn view(&self) -> ReasonModel {
        match self {
            PausedAppReason::Error(message) => ReasonModel::Error(message@),
        }
    }
}

impl View for DisabledAppReason {
    type V = ReasonModel;

    open spec fn view(&self) -> ReasonModel {
        match self {
            DisabledAppReason::NeverStarted => ReasonModel::NeverStarted,
            DisabledAppReason::User => ReasonModel::User,
            DisabledAppReason::Error(message) => ReasonModel::Error(message@),
        }
    }
}

impl View for AppStatus {
    type V = AppStatusModel;

    open spec fn view(&self) -> AppStatusModel {
        match self {
            AppStatus::Running => AppStatusModel::Running,
            AppStatus::Paused(reason) => AppStatusModel::Paused(reason@),
            AppStatus::Disabled(reason) => AppStatusModel::Disabled(reason@),
        }
    }
}

impl View for AppInfoStatus {
    type V = AppStatusModel;

    open spec fn view(&self) -> AppStatusModel {
        match self {
            AppInfoStatus::Running => AppStatusModel::Running,
            AppInfoStatus::Paused { reason } => AppStatusModel::Paused(reason@),
            AppInfoStatus::Disabled { reason } => AppStatusModel::Disabled(reason@),
        }
    }
}

impl From<AppStatus> for AppInfoStatus {
    fn from(i: AppStatus) -> (status: AppInfoStatus)
        ensures
            status@ == i@,
    {
        match i {
            AppStatus::Running => AppInfoStatus::Running,
            AppStatus::Disabled(reason) => AppInfoStatus::Disabled { reason },
            AppStatus::Paused(reason) => AppInfoStatus::Paused { reason },
        }
    }
}

impl FromSpecImpl<AppStatus> for AppInfoStatus {
    open spec fn obeys_from_spec() -> bool {
        true
    }

    open spec fn from_spec(i: AppStatus) -> AppInfoStatus {
        match i {
            AppStatus::Running => AppInfoStatus::Running,
            AppStatus::Disabled(reason) => AppInfoStatus::Disabled { reason },
            AppStatus::Paused(reason) => AppInfoStatus::Paused { reason },
        }
    }
}

impl From<AppInfoStatus> for AppStatus {
    fn from(i: AppInfoStatus) -> (status: AppStatus)
        ensures
            status@ == i@,
    {
        match i {
            AppInfoStatus::Running => AppStatus::Running,
            AppInfoStatus::Disabled { reason } => AppStatus::Disabled(reason),
            AppInfoStatus::Paused { reason } => AppStatus::Paused(reason),
        }
    }
}

impl FromSpecImpl<AppInfoStatus> for AppStatus {
    open spec fn obeys_from_spec() -> bool {
        true
    }

    open spec fn from_spec(i: AppInfoStatus) -> AppStatus {
        match i {
            AppInfoStatus::Running => AppStatus::Running,
            AppInfoStatus::Disabled { reason } => AppStatus::Disabled(reason),
            AppInfoStatus::Paused { reason } => AppStatus::Paused(reason),
        }
    }
}

impl AppStatus {
    /// The status as an app interface shows it, leaving this one in place.
    pub fn to_info_status(&self) -> (status: AppInfoStatus)
        ensures
            status@ == self@,
    {
        match self {
            AppStatus::Running => AppInfoStatus::Running,
            AppStatus::Paused(PausedAppReason::Error(message)) => AppInfoStatus::Paused {
                reason: PausedAppReason::Error(message.clone()),
            },
            AppStatus::Disabled(DisabledAppReason::NeverStarted) => AppInfoStatus::Disabled {
                reason: DisabledAppReason::NeverStarted,
            },
            AppStatus::Disabled(DisabledAppReason::User) => AppInfoStatus::Disabled {
                reason: DisabledAppReason::User,
            },
            AppStatus::Disabled(DisabledAppReason::Error(message)) => AppInfoStatus::Disabled {
                reason: DisabledAppReason::Error(message.clone()),
            },
        }
    }
}

/// The digit that stands for a number under 16 in a JSON escape.
pub open spec fn hex_digit(n: int) -> char {
    if n == 0 {
        '0'
    } else if n == 1 {
        '1'
    } else if n == 2 {
        '2'
    } else if n == 3 {
        '3'
    } else if n == 4 {
        '4'
    } else if n == 5 {
        '5'
    } else if n == 6 {
        '6'
    } else if n == 7 {
        '7'
    } else if n == 8 {
        '8'
    } else if n == 9 {
        '9'
    } else if n == 10 {
        'a'
    } else if n == 11 {
        'b'
    } else if n == 12 {
        'c'
    } else if n == 13 {
        'd'
    } else if n == 14 {
        'e'
    } else {
        'f'
    }
}

/// How one character stands in a JSON string: the quote and the backslash
/// after a backslash, five control characters by their letters, the other
/// control characters by their number, and every other character as it is.
pub open spec fn json_escaped(c: char) -> Seq<char> {
    if c == '"' {
        seq!['\\', '"']
    } else if c == '\\' {
        seq!['\\', '\\']
    } else if c == '\u{8}' {
        seq!['\\', 'b']
    } else if c == '\u{9}' {
        seq!['\\', 't']
    } else if c == '\u{a}' {
        seq!['\\', 'n']
    } else if c == '\u{c}' {
        seq!['\\', 'f']
    } else if c == '\u{d}' {
        seq!['\\', 'r']
    } else if (c as int) < 0x20 {
        seq!['\\', 'u', '0', '0', hex_digit((c as int) / 16), hex_digit((c as int) % 16)]
    } else {
        seq![c]
    }
}

/// A text with every character as it stands in a JSON string.
pub open spec fn json_escaped_text(text: Seq<char>) -> Seq<char>
    decreases text.len(),
{
    if text.len() == 0 {
        Seq::empty()
    } else {
        json_escaped_text(text.drop_last()) + json_escaped(text.last())
    }
}

/// The JSON string that stands for a text.
pub open spec fn json_quoted(text: Seq<char>) -> Seq<char> {
    seq!['"'] + json_escaped_text(text) + seq!['"']
}

/// Calls `serde_json::to_string` on a text. For a text that function does not
/// fail, and writes the text between quotes with the characters escaped that
/// its table names: the quote, the backslash, and the control characters.
#[verifier::external_body]
fn outside_json_string(text: &str) -> (quoted: Option<String>)
    ensures
        text_model(quoted) == Some(json_quoted(text@)),
{
    serde_json::to_string(text).ok()
}

/// The JSON of a reason: a word, or an object that holds the message of an
/// error.
pub open spec fn reason_json(reason: ReasonModel) -> Seq<char> {
    match reason {
        ReasonModel::NeverStarted => "\"never_started\""@,
        ReasonModel::User => "\"user\""@,
        ReasonModel::Error(message) => error_object(json_quoted(message)),
    }
}

/// The JSON of a status: the word `running`, or an object named after the
/// status that holds the reason.
pub open spec fn status_json(status: AppStatusModel) -> Seq<char> {
    match status {
        AppStatusModel::Running => "\"running\""@,
        AppStatusModel::Paused(reason) => status_object(true, reason_json(reason)),
        AppStatusModel::Disabled(reason) => status_object(false, reason_json(reason)),
    }
}

/// The JSON of a reason that is an error, around the JSON string of its
/// message.
pub open spec fn error_object(quoted: Seq<char>) -> Seq<char> {
    "{\"error\":"@ + quoted + "}"@
}

/// The JSON of a status that holds a reason, around the JSON of the reason.
pub open spec fn status_object(paused: bool, reason: Seq<char>) -> Seq<char> {
    if paused {
        "{\"paused\":{\"reason\":"@ + reason + "}}"@
    } else {
        "{\"disabled\":{\"reason\":"@ + reason + "}}"@
    }
}

/// Makes the JSON of a reason that is an error from the JSON string of its
/// message.
pub fn error_reason_json(quoted: &str) -> (json: String)
    ensures
        json@ == error_object(quoted@),
{
    String::from_str("{\"error\":").concat(quoted).concat("}")
}

/// Makes the JSON of a paused or disabled status from the JSON of its
/// reason.
pub fn stopped_status_json(paused: bool, reason: &str) -> (json: String)
    ensures
        json@ == status_object(paused, reason@),
{
    if paused {
        String::from_str("{\"paused\":{\"reason\":").concat(reason).concat("}}")
    } else {
        String::from_str("{\"disabled\":{\"reason\":").concat(reason).concat("}}")
    }
}

/// The JSON of an error's message as a reason.
fn error_json(message: &String) -> (json: Option<String>)
    ensures
        text_model(json) == Some(reason_json(ReasonModel::Error(message@))),
{
    match outside_json_string(message.as_str()) {
        Some(quoted) => Some(error_reason_json(quoted.as_str())),
        None => None,
    }
}

impl PausedAppReason {
    /// This reason as JSON.
    pub fn to_json(&self) -> (json: Option<String>)
        ensures
            text_model(json) == Some(reason_json(self@)),
    {
        match self {
            PausedAppReason::Error(message) => error_json(message),
        }
    }
}

impl DisabledAppReason {
    /// This reason as JSON.
    pub fn to_json(&self) -> (json: Option<String>)
        ensures
            text_model(json) == Some(reason_json(self@)),
    {
        match self {
            DisabledAppReason::NeverStarted => Some(String::from_str("\"never_started\"")),
            DisabledAppReason::User => Some(String::from_str("\"user\"")),
            DisabledAppReason::Error(message) => error_json(message),
        }
    }
}

impl AppInfoStatus {
    /// Whether the app runs.
    pub fn is_running(&self) -> (running: bool)
        ensures
            running == (self@ is Running),
    {
        match self {
            AppInfoStatus::Running => true,
            _ => false,
        }
    }

    /// This status as JSON, in the form that clients rely on.
    pub fn to_json(&self) -> (json: Option<String>)
        ensures
            text_model(json) == Some(status_json(self@)),
    {
        match self {
            AppInfoStatus::Running => Some(String::from_str("\"running\"")),
            AppInfoStatus::Paused { reason } => match reason.to_json() {
                Some(inner) => Some(stopped_status_json(true, inner.as_str())),
                None => None,
            },
            AppInfoStatus::Disabled { reason } => match reason.to_json() {
                Some(inner) => Some(stopped_status_json(false, inner.as_str())),
                None => None,
            },
        }
    }
}

/// What sets one DNA apart from another built of the same code.
#[derive(Debug)]
pub struct DnaModifiers {
    pub network_seed: String,
    pub properties: Vec<u8>,
    /// Microseconds since the epoch.
    pub origin_time: i64,
    pub quantum_time_secs: u64,
    pub quantum_time_nanos: u32,
}

/// Mathematical model of [`DnaModifiers`].
pub struct DnaModifiersModel {
    pub network_seed: Seq<char>,
    pub properties: Seq<u8>,
    pub origin_time: int,
    pub quantum_time_secs: int,
    pub quantum_time_nanos: int,
}

impl View for DnaModifiers {
    type V = DnaModifiersModel;

    open spec fn view(&self) -> DnaModifiersModel {
        DnaModifiersModel {
            network_seed: self.network_seed@,
            properties: self.properties@,
            origin_time: self.origin_time as int,
            quantum_time_secs: self.quantum_time_secs as int,
            quantum_time_nanos: self.quantum_time_nanos as int,
        }
    }
}

impl DnaModifiers {
    /// A copy of these modifiers.
    pub fn duplicate(&self) -> (copy: DnaModifiers)
        ensures
            copy@ == self@,
    {
        DnaModifiers {
            network_seed: self.network_seed.clone(),
            properties: self.properties.clone(),
            origin_time: self.origin_time,
            quantum_time_secs: self.quantum_time_secs,
            quantum_time_nanos: self.quantum_time_nanos,
        }
    }
}

/// A cell that runs, or could run, in an app.
#[derive(Debug)]
pub struct Cell {
    pub cell_id: CellId,
    pub clone_id: Option<String>,
    pub dna_modifiers: DnaModifiers,
    pub name: String,
    pub enabled: bool,
}

/// A cell that is declared but not installed yet.
#[derive(Debug)]
pub struct StemCell {
    pub dna: [u8; 36],
    pub name: Option<String>,
    pub dna_modifiers: DnaModifiers,
}

/// One cell of an app, by the way it came to be.
#[derive(Debug)]
pub enum CellInfo {
    /// A cell provisioned when the app was installed.
    Provisioned(Cell),
    /// A cell made by cloning.
    Cloned(Cell),
    /// A cell whose installation is deferred.
    Stem(StemCell),
}

/// The view of an optional text.
pub open spec fn text_model(text: Option<String>) -> Option<Seq<char>> {
    match text {
        Some(t) => Some(t@),
        None => None,
    }
}

/// Mathematical model of a [`Cell`].
pub struct CellModel {
    pub cell_id: (Seq<u8>, Seq<u8>),
    pub clone_id: Option<Seq<char>>,
    pub dna_modifiers: DnaModifiersModel,
    pub name: Seq<char>,
    pub enabled: bool,
}

/// Mathematical model of a [`StemCell`].
pub struct StemCellModel {
    pub dna: Seq<u8>,
    pub name: Option<Seq<char>>,
    pub dna_modifiers: DnaModifiersModel,
}

/// Mathematical model of a [`CellInfo`].
pub enum CellInfoModel {
    Provisioned(CellModel),
    Cloned(CellModel),
    Stem(StemCellModel),
}

impl View for Cell {
    type V = CellModel;

    open spec fn view(&self) -> CellModel {
        CellModel {
            cell_id: self.cell_id@,
            clone_id: text_model(self.clone_id),
            dna_modifiers: self.dna_modifiers@,
            name: self.name@,
            enabled: self.enabled,
        }
    }
}

impl View for StemCell {
    type V = StemCellModel;

    open spec fn view(&self) -> StemCellModel {
        StemCellModel {
            dna: self.dna@,
            name: text_model(self.name),
            dna_modifiers: self.dna_modifiers@,
        }
    }
}

impl View for CellInfo {
    type V = CellInfoModel;

    open spec fn view(&self) -> CellInfoModel {
        match self {
            CellInfo::Provisioned(cell) => CellInfoModel::Provisioned(cell@),
            CellInfo::Cloned(cell) => CellInfoModel::Cloned(cell@),
            CellInfo::Stem(cell) => CellInfoModel::Stem(cell@),
        }
    }
}

impl CellInfo {
    /// The info of a provisioned cell: it has no clone id.
    pub fn new_provisioned(
        cell_id: CellId,
        dna_modifiers: DnaModifiers,
        name: String,
        enabled: bool,
    ) -> (info: CellInfo)
        ensures
            info@ == CellInfoModel::Provisioned(
                CellModel {
                    cell_id: cell_id@,
                    clone_id: None,
                    dna_modifiers: dna_modifiers@,
                    name: name@,
                    enabled,
                },
            ),
    {
        CellInfo::Provisioned(Cell { cell_id, clone_id: None, dna_modifiers, name, enabled })
    }

    /// The info of a clone cell.
    pub fn new_cloned(
        cell_id: CellId,
        clone_id: String,
        dna_modifiers: DnaModifiers,
        name: String,
        enabled: bool,
    ) -> (info: CellInfo)
        ensures
            info@ == CellInfoModel::Cloned(
                CellModel {
                    cell_id: cell_id@,
                    clone_id: Some(clone_id@),
                    dna_modifiers: dna_modifiers@,
                    name: name@,
                    enabled,
                },
            ),
    {
        CellInfo::Cloned(
            Cell { cell_id, clone_id: Some(clone_id), dna_modifiers, name, enabled },
        )
    }
}

/// The definition of the DNA that a cell runs, as far as an app interface
/// shows it.
#[derive(Debug)]
pub struct DnaDefinition {
    pub cell_id: CellId,
    pub name: String,
    pub modifiers: DnaModifiers,
}

/// Mathematical model of a [`DnaDefinition`].
pub struct DnaDefinitionModel {
    pub cell_id: (Seq<u8>, Seq<u8>),
    pub name: Seq<char>,
    pub modifiers: DnaModifiersModel,
}

impl View for DnaDefinition {
    type V = DnaDefinitionModel;

    open spec fn view(&self) -> DnaDefinitionModel {
        DnaDefinitionModel { cell_id: self.cell_id@, name: self.name@, modifiers: self.modifiers@ }
    }
}

/// A clone of a role's cell.
#[derive(Debug)]
pub struct CloneCell {
    pub clone_id: String,
    pub cell_id: CellId,
}

/// Mathematical model of a [`CloneCell`].
pub struct CloneCellModel {
    pub clone_id: Seq<char>,
    pub cell_id: (Seq<u8>, Seq<u8>),
}

impl View for CloneCell {
    type V = CloneCellModel;

    open spec fn view(&self) -> CloneCellModel {
        CloneCellModel { clone_id: self.clone_id@, cell_id: self.cell_id@ }
    }
}

/// The cells that fill one role of an app.
#[derive(Debug)]
pub struct AppRoleAssignment {
    pub role_name: String,
    pub base_cell_id: CellId,
    /// Whether the base cell was provisioned when the app was installed.
    pub is_provisioned: bool,
    pub clones: Vec<CloneCell>,
    pub disabled_clones: Vec<CloneCell>,
}

/// Mathematical model of an [`AppRoleAssignment`].
pub struct RoleModel {
    pub role_name: Seq<char>,
    pub base_cell_id: (Seq<u8>, Seq<u8>),
    pub is_provisioned: bool,
    pub clones: Seq<CloneCellModel>,
    pub disabled_clones: Seq<CloneCellModel>,
}

/// The views of a list of clone cells, in order.
pub open spec fn clone_models(clones: Seq<CloneCell>) -> Seq<CloneCellModel> {
    clones.map_values(|c: CloneCell| c@)
}

impl View for AppRoleAssignment {
    type V = RoleModel;

    open spec fn view(&self) -> RoleModel {
        RoleModel {
            role_name: self.role_name@,
            base_cell_id: self.base_cell_id@,
            is_provisioned: self.is_provisioned,
            clones: clone_models(self.clones@),
            disabled_clones: clone_models(self.disabled_clones@),
        }
    }
}

/// An app as the conductor keeps it: its id, its status and its roles.
#[derive(Debug)]
pub struct InstalledApp {
    pub installed_app_id: String,
    pub status: AppStatus,
    pub role_assignments: Vec<AppRoleAssignment>,
}

/// Mathematical model of an [`InstalledApp`].
pub struct InstalledAppModel {
    pub installed_app_id: Seq<char>,
    pub status: AppStatusModel,
    pub roles: Seq<RoleModel>,
}

/// The views of a list of roles, in order.
pub open spec fn role_models(roles: Seq<AppRoleAssignment>) -> Seq<RoleModel> {
    roles.map_values(|r: AppRoleAssignment| r@)
}

impl View for InstalledApp {
    type V = InstalledAppModel;

    open spec fn view(&self) -> InstalledAppModel {
        InstalledAppModel {
            installed_app_id: self.installed_app_id@,
            status: self.status@,
            roles: role_models(self.role_assignments@),
        }
    }
}

impl InstalledApp {
    /// Whether every role of this app has a provisioned cell.
    pub fn all_provisioned(&self) -> (all: bool)
        ensures
            all == forall|i: int|
                0 <= i < self.role_assignments@.len() ==> (
                #[trigger] self.role_assignments@[i]).is_provisioned,
    {
        let mut i: usize = 0;
        while i < self.role_assignments.len()
            invariant
                i <= self.role_assignments.len(),
                forall|j: int| 0 <= j < i ==> (#[trigger] self.role_assignments@[j]).is_provisioned,
            decreases self.role_assignments.len() - i,
        {
            if !self.role_assignments[i].is_provisioned {
                return false;
            }
            i += 1;
        }
        true
    }
}

/// The cells of one role, as an app interface lists them.
#[derive(Debug)]
pub struct RoleCells {
    pub role_name: String,
    pub cells: Vec<CellInfo>,
}

/// Mathematical model of [`RoleCells`].
pub struct RoleCellsModel {
    pub role_name: Seq<char>,
    pub cells: Seq<CellInfoModel>,
}

/// The views of a list of cells, in order.
pub open spec fn cell_models(cells: Seq<CellInfo>) -> Seq<CellInfoModel> {
    cells.map_values(|c: CellInfo| c@)
}

impl View for RoleCells {
    type V = RoleCellsModel;

    open spec fn view(&self) -> RoleCellsModel {
        RoleCellsModel { role_name: self.role_name@, cells: cell_models(self.cells@) }
    }
}

/// What an app interface tells about an installed app.
#[derive(Debug)]
pub struct AppInfo {
    pub installed_app_id: String,
    /// The cells of each role: first the provisioned cell, then the enabled
    /// clones, then the disabled ones.
    pub cell_info: Vec<RoleCells>,
    pub status: AppInfoStatus,
}

/// Mathematical model of an [`AppInfo`].
pub struct AppInfoModel {
    pub installed_app_id: Seq<char>,
    pub cell_info: Seq<RoleCellsModel>,
    pub status: AppStatusModel,
}

/// The views of a list of roles with their cells, in order.
pub open spec fn role_cells_models(roles: Seq<RoleCells>) -> Seq<RoleCellsModel> {
    roles.map_values(|r: RoleCells| r@)
}

impl View for AppInfo {
    type V = AppInfoModel;

    open spec fn view(&self) -> AppInfoModel {
        AppInfoModel {
            installed_app_id: self.installed_app_id@,
            cell_info: role_cells_models(self.cell_info@),
            status: self.status@,
        }
    }
}

/// The views of a list of DNA definitions, in order.
pub open spec fn definition_models(definitions: Seq<DnaDefinition>) -> Seq<DnaDefinitionModel> {
    definitions.map_values(|d: DnaDefinition| d@)
}

/// The definition on record for a cell: the first one, from index `from` on,
/// that is for it.
pub open spec fn definition_from(
    definitions: Seq<DnaDefinitionModel>,
    cell_id: (Seq<u8>, Seq<u8>),
    from: int,
) -> Option<DnaDefinitionModel>
    decreases definitions.len() - from,
{
    if from < 0 || from >= definitions.len() {
        None
    } else if definitions[from].cell_id == cell_id {
        Some(definitions[from])
    } else {
        definition_from(definitions, cell_id, from + 1)
    }
}

/// The info of a role's provisioned cell: one cell where its definition is on
/// record, none where it is not.
pub open spec fn provisioned_cells(
    role: RoleModel,
    definitions: Seq<DnaDefinitionModel>,
    running: bool,
) -> Seq<CellInfoModel> {
    match definition_from(definitions, role.base_cell_id, 0) {
        Some(definition) => seq![
            CellInfoModel::Provisioned(
                CellModel {
                    cell_id: role.base_cell_id,
                    clone_id: None,
                    dna_modifiers: definition.modifiers,
                    name: definition.name,
                    enabled: running,
                },
            ),
        ],
        None => Seq::empty(),
    }
}

/// The infos of clone cells, in order, leaving out those whose definition is
/// not on record.
pub open spec fn cloned_cells(
    clones: Seq<CloneCellModel>,
    definitions: Seq<DnaDefinitionModel>,
    enabled: bool,
) -> Seq<CellInfoModel>
    decreases clones.len(),
{
    if clones.len() == 0 {
        Seq::empty()
    } else {
        let earlier = cloned_cells(clones.drop_last(), definitions, enabled);
        match definition_from(definitions, clones.last().cell_id, 0) {
            Some(definition) => earlier.push(
                CellInfoModel::Cloned(
                    CellModel {
                        cell_id: clones.last().cell_id,
                        clone_id: Some(clones.last().clone_id),
                        dna_modifiers: definition.modifiers,
                        name: definition.name,
                        enabled,
                    },
                ),
            ),
            None => earlier,
        }
    }
}

/// The cells of one role: the provisioned cell, then the enabled clones,
/// then the disabled ones.
pub open spec fn cells_of_role(
    role: RoleModel,
    definitions: Seq<DnaDefinitionModel>,
    running: bool,
) -> RoleCellsModel {
    RoleCellsModel {
        role_name: role.role_name,
        cells: provisioned_cells(role, definitions, running) + cloned_cells(
            role.clones,
            definitions,
            true,
        ) + cloned_cells(role.disabled_clones, definitions, false),
    }
}

/// What an app interface tells about an app, given the DNA definitions on
/// record.
pub open spec fn app_info_of(app: InstalledAppModel, definitions: Seq<DnaDefinitionModel>)
    -> AppInfoModel {
    AppInfoModel {
        installed_app_id: app.installed_app_id,
        cell_info: app.roles.map_values(
            |role: RoleModel| cells_of_role(role, definitions, app.status is Running),
        ),
        status: app.status,
    }
}

/// Finds the definition on record for a cell.
pub fn find_definition<'a>(definitions: &'a [DnaDefinition], cell_id: &CellId) -> (found: Option<
    &'a DnaDefinition,
>)
    ensures
        match found {
            Some(d) => definition_from(definition_models(definitions@), cell_id@, 0) == Some(d@),
            None => definition_from(definition_models(definitions@), cell_id@, 0) is None,
        },
{
    let mut i: usize = 0;
    while i < definitions.len()
        invariant
            i <= definitions.len(),
            definition_from(definition_models(definitions@), cell_id@, 0) == definition_from(
                definition_models(definitions@),
                cell_id@,
                i as int,
            ),
        decreases definitions.len() - i,
    {
        let definition = &definitions[i];
        proof {
            assert(definition_models(definitions@)[i as int] == definition@);
        }
        if definition.cell_id.same_as(cell_id) {
            return Some(definition);
        }
        i += 1;
    }
    None
}

/// Adds to `cells` the infos of `clones`, in order, leaving out those whose
/// definition is not on record.
fn push_cloned_cells(
    cells: &mut Vec<CellInfo>,
    clones: &[CloneCell],
    definitions: &[DnaDefinition],
    enabled: bool,
)
    ensures
        cell_models(final(cells)@) == cell_models(old(cells)@) + cloned_cells(
            clone_models(clones@),
            definition_models(definitions@),
            enabled,
        ),
{
    let mut i: usize = 0;
    proof {
        assert(clone_models(clones@.take(0)) =~= Seq::<CloneCellModel>::empty());
        assert(cell_models(cells@) =~= cell_models(old(cells)@) + Seq::<CellInfoModel>::empty());
    }
    while i < clones.len()
        invariant
            i <= clones.len(),
            cell_models(cells@) == cell_models(old(cells)@) + cloned_cells(
                clone_models(clones@.take(i as int)),
                definition_models(definitions@),
                enabled,
            ),
        decreases clones.len() - i,
    {
        let clone = &clones[i];
        let ghost before = cells@;
        proof {
            let next = clone_models(clones@.take(i + 1));
            assert(next.drop_last() =~= clone_models(clones@.take(i as int)));
            assert(next.last() == clone@);
        }
        match find_definition(definitions, &clone.cell_id) {
            Some(dna_def) => {
                let cell_info = CellInfo::new_cloned(
                    clone.cell_id,
                    clone.clone_id.clone(),
                    dna_def.modifiers.duplicate(),
                    dna_def.name.clone(),
                    enabled,
                );
                cells.push(cell_info);
                proof {
                    assert(cell_models(cells@) =~= cell_models(before).push(cell_info@));
                    assert(cell_models(cells@) =~= cell_models(old(cells)@) + cloned_cells(
                        clone_models(clones@.take(i + 1)),
                        definition_models(definitions@),
                        enabled,
                    ));
                }
            },
            None => {},
        }
        i += 1;
    }
    proof {
        assert(clones@.take(i as int) =~= clones@);
    }
}

impl AppInfo {
    /// Tells what an app interface shows of an installed app.
    ///
    /// The roles come in the app's order. For each, the provisioned cell
    /// comes first, enabled exactly if the app runs; then the role's enabled
    /// clones and then its disabled ones, each in their order. A cell whose
    /// DNA definition is not on record is left out. Every role must have a
    /// provisioned cell: deferred cells are not provided for.
    ///
    /// The lists stand for maps: roles by name, clones by clone id,
    /// definitions by cell. Where the app's lists hold no key twice, neither
    /// do those of the result.
    pub fn from_installed_app(app: &InstalledApp, dna_definitions: &[DnaDefinition]) -> (info:
        AppInfo)
        requires
            forall|i: int|
                0 <= i < app.role_assignments@.len() ==> (
                #[trigger] app.role_assignments@[i]).is_provisioned,
        ensures
            info@ == app_info_of(app@, definition_models(dna_definitions@)),
            well_keyed(app@) ==> info_well_keyed(info@),
    {
        let installed_app_id = app.installed_app_id.clone();
        let status = app.status.to_info_status();
        let running = status.is_running();
        let mut cell_info: Vec<RoleCells> = Vec::new();
        let mut i: usize = 0;
        let ghost definitions = definition_models(dna_definitions@);
        while i < app.role_assignments.len()
            invariant
                i <= app.role_assignments.len(),
                running == (app@.status is Running),
                definitions == definition_models(dna_definitions@),
                cell_info@.len() == i,
                forall|j: int|
                    0 <= j < i ==> (#[trigger] cell_info@[j])@ == cells_of_role(
                        app.role_assignments@[j]@,
                        definitions,
                        running,
                    ),
            decreases app.role_assignments.len() - i,
        {
            let role_assignment = &app.role_assignments[i];
            let mut cell_info_for_role: Vec<CellInfo> = Vec::new();
            match find_definition(dna_definitions, &role_assignment.base_cell_id) {
                Some(dna_def) => {
                    let provisioned = CellInfo::new_provisioned(
                        role_assignment.base_cell_id,
                        dna_def.modifiers.duplicate(),
                        dna_def.name.clone(),
                        running,
                    );
                    cell_info_for_role.push(provisioned);
                    proof {
                        assert(cell_models(cell_info_for_role@) =~= seq![provisioned@]);
                    }
                },
                None => {
                    proof {
                        assert(cell_models(cell_info_for_role@) =~= Seq::<CellInfoModel>::empty());
                    }
                },
            }
            proof {
                assert(cell_models(cell_info_for_role@) == provisioned_cells(
                    role_assignment@,
                    definitions,
                    running,
                ));
            }
            push_cloned_cells(
                &mut cell_info_for_role,
                role_assignment.clones.as_slice(),
                dna_definitions,
                true,
            );
            push_cloned_cells(
                &mut cell_info_for_role,
                role_assignment.disabled_clones.as_slice(),
                dna_definitions,
                false,
            );
            let role_cells = RoleCells {
                role_name: role_assignment.role_name.clone(),
                cells: cell_info_for_role,
            };
            proof {
                assert(role_cells@ == cells_of_role(role_assignment@, definitions, running));
            }
            cell_info.push(role_cells);
            i += 1;
        }
        let info = AppInfo { installed_app_id, cell_info, status };
        proof {
            assert(info@.cell_info =~= app_info_of(app@, definitions).cell_info);
            if well_keyed(app@) {
                app_info_keeps_keys(app@, definitions);
            }
        }
        info
    }
}

/// Whether every role has a name of its own.
pub open spec fn role_names_distinct(roles: Seq<RoleModel>) -> bool {
    forall|i: int, j: int|
        0 <= i < j < roles.len() ==> (#[trigger] roles[i]).role_name != (
        #[trigger] roles[j]).role_name
}

/// Whether every clone in the list has a clone id of its own.
pub open spec fn clone_ids_distinct(clones: Seq<CloneCellModel>) -> bool {
    forall|i: int, j: int|
        0 <= i < j < clones.len() ==> (#[trigger] clones[i]).clone_id != (
        #[trigger] clones[j]).clone_id
}

/// Whether every definition is for a cell of its own.
pub open spec fn definitions_distinct(definitions: Seq<DnaDefinitionModel>) -> bool {
    forall|i: int, j: int|
        0 <= i < j < definitions.len() ==> (#[trigger] definitions[i]).cell_id != (
        #[trigger] definitions[j]).cell_id
}

/// Whether an app is keyed as a map is: no two roles share a name, and no two
/// clones of a role, enabled or disabled, share a clone id.
pub open spec fn well_keyed(app: InstalledAppModel) -> bool {
    &&& role_names_distinct(app.roles)
    &&& forall|i: int|
        0 <= i < app.roles.len() ==> clone_ids_distinct(
            (#[trigger] app.roles[i]).clones + app.roles[i].disabled_clones,
        )
}

/// The clone id of a listed cell, if it is a clone.
pub open spec fn listed_clone_id(cell: CellInfoModel) -> Option<Seq<char>> {
    match cell {
        CellInfoModel::Cloned(c) => c.clone_id,
        _ => None,
    }
}

/// Whether no two clones in a list of cells share a clone id.
pub open spec fn listed_clones_distinct(cells: Seq<CellInfoModel>) -> bool {
    forall|i: int, j: int|
        0 <= i < j < cells.len() && listed_clone_id(#[trigger] cells[i]) is Some
            ==> listed_clone_id(cells[i]) != listed_clone_id(#[trigger] cells[j])
}

/// Whether what an app interface shows is keyed as a map is: no two roles
/// share a name, and no two clones listed for a role share a clone id.
pub open spec fn info_well_keyed(info: AppInfoModel) -> bool {
    &&& forall|i: int, j: int|
        0 <= i < j < info.cell_info.len() ==> (#[trigger] info.cell_info[i]).role_name != (
        #[trigger] info.cell_info[j]).role_name
    &&& forall|i: int|
        0 <= i < info.cell_info.len() ==> listed_clones_distinct(
            (#[trigger] info.cell_info[i]).cells,
        )
}

/// Whether every cell of the list is a clone whose id is that of one of the
/// clones.
pub open spec fn listed_from(cells: Seq<CellInfoModel>, clones: Seq<CloneCellModel>) -> bool {
    forall|k: int|
        0 <= k < cells.len() ==> exists|m: int|
            0 <= m < clones.len() && listed_clone_id(#[trigger] cells[k]) == Some(
                (#[trigger] clones[m]).clone_id,
            )
}

/// Among definitions that are each for a cell of its own, the one on record
/// for a cell is the one that is for it, wherever it stands: the list is read
/// as a map from cells to definitions.
pub proof fn definition_is_found_by_its_cell(definitions: Seq<DnaDefinitionModel>, at: int)
    requires
        definitions_distinct(definitions),
        0 <= at < definitions.len(),
    ensures
        definition_from(definitions, definitions[at].cell_id, 0) == Some(definitions[at]),
{
    lemma_definition_from(definitions, at, 0);
}

proof fn lemma_definition_from(definitions: Seq<DnaDefinitionModel>, at: int, from: int)
    requires
        definitions_distinct(definitions),
        0 <= from <= at < definitions.len(),
    ensures
        definition_from(definitions, definitions[at].cell_id, from) == Some(definitions[at]),
    decreases at - from,
{
    if from < at {
        assert(definitions[from].cell_id != definitions[at].cell_id);
        lemma_definition_from(definitions, at, from + 1);
    }
}

/// A cell for which no definition is on record is looked up in vain, and
/// only such a cell is.
pub proof fn definition_is_missing_for_unknown_cells(
    definitions: Seq<DnaDefinitionModel>,
    cell_id: (Seq<u8>, Seq<u8>),
)
    ensures
        definition_from(definitions, cell_id, 0) is None <==> forall|i: int|
            0 <= i < definitions.len() ==> (#[trigger] definitions[i]).cell_id != cell_id,
{
    lemma_definition_missing(definitions, cell_id, 0);
}

proof fn lemma_definition_missing(
    definitions: Seq<DnaDefinitionModel>,
    cell_id: (Seq<u8>, Seq<u8>),
    from: int,
)
    requires
        0 <= from <= definitions.len(),
    ensures
        definition_from(definitions, cell_id, from) is None <==> forall|i: int|
            from <= i < definitions.len() ==> (#[trigger] definitions[i]).cell_id != cell_id,
    decreases definitions.len() - from,
{
    if from < definitions.len() {
        lemma_definition_missing(definitions, cell_id, from + 1);
        if definitions[from].cell_id == cell_id {
        } else if definition_from(definitions, cell_id, from) is None {
            assert forall|i: int| from <= i < definitions.len() implies (
            #[trigger] definitions[i]).cell_id != cell_id by {
                if i > from {
                }
            }
        }
    }
}

proof fn lemma_cloned_cells_keep_ids(
    clones: Seq<CloneCellModel>,
    definitions: Seq<DnaDefinitionModel>,
    enabled: bool,
)
    requires
        clone_ids_distinct(clones),
    ensures
        listed_from(cloned_cells(clones, definitions, enabled), clones),
        listed_clones_distinct(cloned_cells(clones, definitions, enabled)),
    decreases clones.len(),
{
    if clones.len() > 0 {
        let front = clones.drop_last();
        let last = clones.last();
        assert(clone_ids_distinct(front)) by {
            assert forall|i: int, j: int| 0 <= i < j < front.len() implies (
            #[trigger] front[i]).clone_id != (#[trigger] front[j]).clone_id by {
                assert(clones[i].clone_id != clones[j].clone_id);
            }
        }
        lemma_cloned_cells_keep_ids(front, definitions, enabled);
        let earlier = cloned_cells(front, definitions, enabled);
        let cells = cloned_cells(clones, definitions, enabled);
        assert forall|k: int| 0 <= k < earlier.len() implies exists|m: int|
            0 <= m < clones.len() - 1 && listed_clone_id(#[trigger] earlier[k]) == Some(
                (#[trigger] clones[m]).clone_id,
            ) by {
            let m = choose|m: int|
                0 <= m < front.len() && listed_clone_id(earlier[k]) == Some(
                    (#[trigger] front[m]).clone_id,
                );
            assert(front[m] == clones[m]);
        }
        assert forall|k: int| 0 <= k < cells.len() implies exists|m: int|
            0 <= m < clones.len() && listed_clone_id(#[trigger] cells[k]) == Some(
                (#[trigger] clones[m]).clone_id,
            ) by {
            if k < earlier.len() {
                let m = choose|m: int|
                    0 <= m < clones.len() - 1 && listed_clone_id(earlier[k]) == Some(
                        (#[trigger] clones[m]).clone_id,
                    );
                assert(cells[k] == earlier[k]);
                assert(listed_clone_id(cells[k]) == Some(clones[m].clone_id));
            } else {
                assert(listed_clone_id(cells[k]) == Some(clones[clones.len() - 1].clone_id));
            }
        }
        assert forall|i: int, j: int|
            0 <= i < j < cells.len() && listed_clone_id(
                #[trigger] cells[i],
            ) is Some implies listed_clone_id(cells[i]) != listed_clone_id(
            #[trigger] cells[j],
        ) by {
            if j < earlier.len() {
                assert(cells[i] == earlier[i] && cells[j] == earlier[j]);
                assert(listed_clone_id(earlier[i]) != listed_clone_id(earlier[j]));
            } else {
                let m = choose|m: int|
                    0 <= m < clones.len() - 1 && listed_clone_id(earlier[i]) == Some(
                        (#[trigger] clones[m]).clone_id,
                    );
                assert(cells[i] == earlier[i]);
                assert(clones[m].clone_id != clones[clones.len() - 1].clone_id);
            }
        }
    }
}

proof fn lemma_role_cells_keep_ids(
    role: RoleModel,
    definitions: Seq<DnaDefinitionModel>,
    running: bool,
)
    requires
        clone_ids_distinct(role.clones + role.disabled_clones),
    ensures
        listed_clones_distinct(cells_of_role(role, definitions, running).cells),
{
    let all = role.clones + role.disabled_clones;
    let first = provisioned_cells(role, definitions, running);
    let second = cloned_cells(role.clones, definitions, true);
    let third = cloned_cells(role.disabled_clones, definitions, false);
    let cells = cells_of_role(role, definitions, running).cells;
    assert(clone_ids_distinct(role.clones)) by {
        assert forall|i: int, j: int| 0 <= i < j < role.clones.len() implies (
        #[trigger] role.clones[i]).clone_id != (#[trigger] role.clones[j]).clone_id by {
            assert(all[i].clone_id != all[j].clone_id);
        }
    }
    assert(clone_ids_distinct(role.disabled_clones)) by {
        assert forall|i: int, j: int| 0 <= i < j < role.disabled_clones.len() implies (
        #[trigger] role.disabled_clones[i]).clone_id != (
        #[trigger] role.disabled_clones[j]).clone_id by {
            assert(all[role.clones.len() + i].clone_id != all[role.clones.len() + j].clone_id);
        }
    }
    lemma_cloned_cells_keep_ids(role.clones, definitions, true);
    lemma_cloned_cells_keep_ids(role.disabled_clones, definitions, false);
    assert forall|i: int, j: int|
        0 <= i < j < cells.len() && listed_clone_id(
            #[trigger] cells[i],
        ) is Some implies listed_clone_id(cells[i]) != listed_clone_id(#[trigger] cells[j]) by {
        let a = first.len() as int;
        let b = a + second.len();
        if i < a {
            assert(cells[i] == first[i]);
        } else if j < b {
            assert(cells[i] == second[i - a] && cells[j] == second[j - a]);
            assert(listed_clone_id(second[i - a]) != listed_clone_id(second[j - a]));
        } else if i >= b {
            assert(cells[i] == third[i - b] && cells[j] == third[j - b]);
            assert(listed_clone_id(third[i - b]) != listed_clone_id(third[j - b]));
        } else {
            assert(cells[i] == second[i - a] && cells[j] == third[j - b]);
            let m = choose|m: int|
                0 <= m < role.clones.len() && listed_clone_id(second[i - a]) == Some(
                    (#[trigger] role.clones[m]).clone_id,
                );
            let n = choose|n: int|
                0 <= n < role.disabled_clones.len() && listed_clone_id(third[j - b]) == Some(
                    (#[trigger] role.disabled_clones[n]).clone_id,
                );
            assert(all[m] == role.clones[m]);
            assert(all[role.clones.len() + n] == role.disabled_clones[n]);
            assert(all[m].clone_id != all[role.clones.len() + n].clone_id);
        }
    }
}

/// What is shown of an app that is keyed as a map is, is keyed so too: every
/// role is listed once under its own name, and no clone id is listed twice
/// for a role.
pub proof fn app_info_keeps_keys(app: InstalledAppModel, definitions: Seq<DnaDefinitionModel>)
    requires
        well_keyed(app),
    ensures
        info_well_keyed(app_info_of(app, definitions)),
        app_info_of(app, definitions).cell_info.len() == app.roles.len(),
{
    let info = app_info_of(app, definitions);
    assert forall|i: int, j: int| 0 <= i < j < info.cell_info.len() implies (
    #[trigger] info.cell_info[i]).role_name != (#[trigger] info.cell_info[j]).role_name by {
        assert(app.roles[i].role_name != app.roles[j].role_name);
    }
    assert forall|i: int| 0 <= i < info.cell_info.len() implies listed_clones_distinct(
        (#[trigger] info.cell_info[i]).cells,
    ) by {
        assert(clone_ids_distinct(app.roles[i].clones + app.roles[i].disabled_clones));
        lemma_role_cells_keep_ids(app.roles[i], definitions, app.status is Running);
    }
}

} // verus!
