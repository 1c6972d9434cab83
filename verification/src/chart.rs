//! Chart configuration: chart kinds, aggregations and sort orders, the
//! configuration of one chart tab, and the settings panel that edits it.

use vstd::prelude::*;
use crate::keys::{KeyCode, KeyEvent};
use crate::text::str_to_string;

verus! {

/// The most chart tabs a query can have.
pub const MAX_CHART_TABS: usize = 9;

/// The kind of chart drawn.
#[derive(Debug, Clone, Copy, PartialEq, Eq, Structural)]
pub enum ChartType {
    Line,
    VerticalBar,
    HorizontalBar,
}

/// The label of a chart kind.
pub open spec fn chart_type_label(t: ChartType) -> Seq<char> {
    match t {
        ChartType::Line => "Line"@,
        ChartType::VerticalBar => "V. Bar"@,
        ChartType::HorizontalBar => "H. Bar"@,
    }
}

/// Every chart kind, in menu order.
pub open spec fn all_chart_types() -> Seq<ChartType> {
    seq![ChartType::Line, ChartType::VerticalBar, ChartType::HorizontalBar]
}

impl ChartType {
    pub fn label(&self) -> (r: &'static str)
        ensures
            r@ == chart_type_label(*self),
    {
        match self {
            ChartType::Line => "Line",
            ChartType::VerticalBar => "V. Bar",
            ChartType::HorizontalBar => "H. Bar",
        }
    }

    pub fn all() -> (r: Vec<ChartType>)
        ensures
            r@ == all_chart_types(),
    {
        let r = vec![ChartType::Line, ChartType::VerticalBar, ChartType::HorizontalBar];
        assert(r@ =~= all_chart_types());
        r
    }
}

/// How the values of one x position are combined.
#[derive(Debug, Clone, Copy, PartialEq, Eq, Structural)]
pub enum Aggregation {
    /// Points are drawn as they are (labelled `NONE`).
    NoAggregation,
    Sum,
    Min,
    Max,
    Count,
    Median,
    Average,
}

/// The label of an aggregation.
pub open spec fn aggregation_label(a: Aggregation) -> Seq<char> {
    match a {
        Aggregation::NoAggregation => "NONE"@,
        Aggregation::Sum => "SUM"@,
        Aggregation::Min => "MIN"@,
        Aggregation::Max => "MAX"@,
        Aggregation::Count => "COUNT"@,
        Aggregation::Median => "MEDIAN"@,
        Aggregation::Average => "AVG"@,
    }
}

/// Every aggregation, in menu order.
pub open spec fn all_aggregations() -> Seq<Aggregation> {
    seq![
        Aggregation::NoAggregation,
        Aggregation::Sum,
        Aggregation::Min,
        Aggregation::Max,
        Aggregation::Count,
        Aggregation::Median,
        Aggregation::Average,
    ]
}

impl Aggregation {
    pub fn label(&self) -> (r: &'static str)
        ensures
            r@ == aggregation_label(*self),
    {
        match self {
            Aggregation::NoAggregation => "NONE",
            Aggregation::Sum => "SUM",
            Aggregation::Min => "MIN",
            Aggregation::Max => "MAX",
            Aggregation::Count => "COUNT",
            Aggregation::Median => "MEDIAN",
            Aggregation::Average => "AVG",
        }
    }

    pub fn all() -> (r: Vec<Aggregation>)
        ensures
            r@ == all_aggregations(),
    {
        let r = vec![
            Aggregation::NoAggregation,
            Aggregation::Sum,
            Aggregation::Min,
            Aggregation::Max,
            Aggregation::Count,
            Aggregation::Median,
            Aggregation::Average,
        ];
        assert(r@ =~= all_aggregations());
        r
    }
}

/// The order in which points are drawn.
#[derive(Debug, Clone, Copy, PartialEq, Eq, Structural)]
pub enum SortOrder {
    /// Points keep the order of the rows (labelled `None`).
    Unsorted,
    XAscending,
    XDescending,
    YAscending,
    YDescending,
}

/// The label of a sort order.
pub open spec fn sort_order_label(s: SortOrder) -> Seq<char> {
    match s {
        SortOrder::Unsorted => "None"@,
        SortOrder::XAscending => "X Ascending"@,
        SortOrder::XDescending => "X Descending"@,
        SortOrder::YAscending => "Y Ascending"@,
        SortOrder::YDescending => "Y Descending"@,
    }
}

/// Every sort order, in menu order.
pub open spec fn all_sort_orders() -> Seq<SortOrder> {
    seq![
        SortOrder::Unsorted,
        SortOrder::XAscending,
        SortOrder::XDescending,
        SortOrder::YAscending,
        SortOrder::YDescending,
    ]
}

impl SortOrder {
    pub fn label(&self) -> (r: &'static str)
        ensures
            r@ == sort_order_label(*self),
    {
        match self {
            SortOrder::Unsorted => "None",
            SortOrder::XAscending => "X Ascending",
            SortOrder::XDescending => "X Descending",
            SortOrder::YAscending => "Y Ascending",
            SortOrder::YDescending => "Y Descending",
        }
    }

    pub fn all() -> (r: Vec<SortOrder>)
        ensures
            r@ == all_sort_orders(),
    {
        let r = vec![
            SortOrder::Unsorted,
            SortOrder::XAscending,
            SortOrder::XDescending,
            SortOrder::YAscending,
            SortOrder::YDescending,
        ];
        assert(r@ =~= all_sort_orders());
        r
    }
}

/// The configuration of one chart.
#[derive(Debug)]
pub struct ChartConfig {
    pub chart_type: ChartType,
    pub x_column: Option<String>,
    pub y_column: Option<String>,
    pub sort_order: SortOrder,
    pub group_by: Option<String>,
    pub aggregation: Aggregation,
}

impl Clone for ChartConfig {
    fn clone(&self) -> (r: Self)
        ensures
            r.chart_type == self.chart_type,
            crate::parser::opt_view(r.x_column) == crate::parser::opt_view(self.x_column),
            crate::parser::opt_view(r.y_column) == crate::parser::opt_view(self.y_column),
            r.sort_order == self.sort_order,
            crate::parser::opt_view(r.group_by) == crate::parser::opt_view(self.group_by),
            r.aggregation == self.aggregation,
    {
        ChartConfig {
            chart_type: self.chart_type,
            x_column: crate::parser::clone_opt_string(&self.x_column),
            y_column: crate::parser::clone_opt_string(&self.y_column),
            sort_order: self.sort_order,
            group_by: crate::parser::clone_opt_string(&self.group_by),
            aggregation: self.aggregation,
        }
    }
}

impl ChartConfig {
    /// Both axes have a column, so a chart can be drawn from it.
    pub fn is_complete(&self) -> (r: bool)
        ensures
            r == (self.x_column is Some && self.y_column is Some),
    {
        self.x_column.is_some() && self.y_column.is_some()
    }
}

impl Default for ChartConfig {
    /// A vertical bar chart with no columns chosen, unsorted and not
    /// aggregated.
    fn default() -> (r: Self)
        ensures
            r.chart_type == ChartType::VerticalBar,
            r.x_column is None,
            r.y_column is None,
            r.sort_order == SortOrder::Unsorted,
            r.group_by is None,
            r.aggregation == Aggregation::NoAggregation,
    {
        ChartConfig {
            chart_type: ChartType::VerticalBar,
            x_column: None,
            y_column: None,
            sort_order: SortOrder::Unsorted,
            group_by: None,
            aggregation: Aggregation::NoAggregation,
        }
    }
}

/// A chart tab of a query: its label, its configuration, and whether its
/// settings panel is hidden.
#[derive(Debug)]
pub struct ChartTab {
    pub label: String,
    pub config: ChartConfig,
    pub settings_hidden: bool,
}

impl Clone for ChartTab {
    fn clone(&self) -> (r: Self)
        ensures
            r.label@ == self.label@,
            r.config.chart_type == self.config.chart_type,
            crate::parser::opt_view(r.config.x_column) == crate::parser::opt_view(self.config.x_column),
            crate::parser::opt_view(r.config.y_column) == crate::parser::opt_view(self.config.y_column),
            r.config.sort_order == self.config.sort_order,
            crate::parser::opt_view(r.config.group_by) == crate::parser::opt_view(self.config.group_by),
            r.config.aggregation == self.config.aggregation,
            r.settings_hidden == self.settings_hidden,
    {
        ChartTab {
            label: self.label.clone(),
            config: self.config.clone(),
            settings_hidden: self.settings_hidden,
        }
    }
}

impl ChartTab {
    /// Tab number `index`: labelled `Chart {index}`, with the default
    /// configuration and its settings hidden.
    pub fn new(index: usize) -> (r: Self)
        ensures
            r.label@ == "Chart "@ + crate::text::decimal(index as nat),
            r.config.chart_type == ChartType::VerticalBar,
            r.config.x_column is None,
            r.config.y_column is None,
            r.config.sort_order == SortOrder::Unsorted,
            r.config.group_by is None,
            r.config.aggregation == Aggregation::NoAggregation,
            r.settings_hidden,
    {
        let num = crate::text::usize_to_string(index);
        ChartTab {
            label: crate::text::concat("Chart ", num.as_str()),
            config: ChartConfig::default(),
            settings_hidden: true,
        }
    }
}

/// The kind of values a result column holds.
#[derive(Debug, Clone, Copy, PartialEq, Eq, Structural)]
pub enum ColumnType {
    Numeric,
    Date,
    Categorical,
}

/// The short label of a column kind.
pub open spec fn column_type_label(t: ColumnType) -> Seq<char> {
    match t {
        ColumnType::Numeric => "num"@,
        ColumnType::Date => "date"@,
        ColumnType::Categorical => "cat"@,
    }
}

impl ColumnType {
    pub fn short_label(self) -> (r: &'static str)
        ensures
            r@ == column_type_label(self),
    {
        match self {
            ColumnType::Numeric => "num",
            ColumnType::Date => "date",
            ColumnType::Categorical => "cat",
        }
    }
}

/// Which part of a chart pane has the keyboard.
#[derive(Debug, Clone, Copy, PartialEq, Eq, Structural)]
pub enum ChartFocus {
    ChartDisplay,
    Settings,
}

/// The field of the chart settings panel that has the keyboard.
#[derive(Debug, Clone, Copy, PartialEq, Eq, Structural)]
pub enum SettingsFocus {
    ChartType,
    XColumn,
    YColumn,
    SortOrder,
    GroupBy,
    Aggregation,
    Generate,
}

/// The position of a settings field, from the top.
pub open spec fn settings_focus_index(f: SettingsFocus) -> int {
    match f {
        SettingsFocus::ChartType => 0,
        SettingsFocus::XColumn => 1,
        SettingsFocus::YColumn => 2,
        SettingsFocus::SortOrder => 3,
        SettingsFocus::GroupBy => 4,
        SettingsFocus::Aggregation => 5,
        SettingsFocus::Generate => 6,
    }
}

impl SettingsFocus {
    /// The field below (the last field stays).
    pub fn next(self) -> (r: Self)
        ensures
            settings_focus_index(r) == if settings_focus_index(self) < 6 {
                settings_focus_index(self) + 1
            } else {
                6
            },
    {
        match self {
            SettingsFocus::ChartType => SettingsFocus::XColumn,
            SettingsFocus::XColumn => SettingsFocus::YColumn,
            SettingsFocus::YColumn => SettingsFocus::SortOrder,
            SettingsFocus::SortOrder => SettingsFocus::GroupBy,
            SettingsFocus::GroupBy => SettingsFocus::Aggregation,
            SettingsFocus::Aggregation | SettingsFocus::Generate => SettingsFocus::Generate,
        }
    }

    /// The field above (the first field stays).
    pub fn prev(self) -> (r: Self)
        ensures
            settings_focus_index(r) == if settings_focus_index(self) > 0 {
                settings_focus_index(self) - 1
            } else {
                0
            },
    {
        match self {
            SettingsFocus::ChartType | SettingsFocus::XColumn => SettingsFocus::ChartType,
            SettingsFocus::YColumn => SettingsFocus::XColumn,
            SettingsFocus::SortOrder => SettingsFocus::YColumn,
            SettingsFocus::GroupBy => SettingsFocus::SortOrder,
            SettingsFocus::Aggregation => SettingsFocus::GroupBy,
            SettingsFocus::Generate => SettingsFocus::Aggregation,
        }
    }
}

/// Each field has its own position.
pub proof fn lemma_settings_focus_index_injective(a: SettingsFocus, b: SettingsFocus)
    ensures
        settings_focus_index(a) == settings_focus_index(b) ==> a == b,
        0 <= settings_focus_index(a) <= 6,
{
}

/// Moving down then up returns to a field that is not the last, and moving
/// up then down returns to a field that is not the first.
pub proof fn lemma_settings_focus_round_trip(f: SettingsFocus)
    ensures
        settings_focus_index(f) < 6 ==> forall|n: SettingsFocus, p: SettingsFocus|
            settings_focus_index(n) == settings_focus_index(f) + 1 && settings_focus_index(p)
                == settings_focus_index(n) - 1 ==> p == f,
        settings_focus_index(f) > 0 ==> forall|p: SettingsFocus, n: SettingsFocus|
            settings_focus_index(p) == settings_focus_index(f) - 1 && settings_focus_index(n)
                == settings_focus_index(p) + 1 ==> n == f,
{
    assert forall|a: SettingsFocus, b: SettingsFocus| settings_focus_index(a) == settings_focus_index(b) implies a == b by {
        lemma_settings_focus_index_injective(a, b);
    }
}

/// The settings field whose popup list is open.
#[derive(Debug, Clone, Copy, PartialEq, Eq, Structural)]
pub enum PopupField {
    ChartType,
    XColumn,
    YColumn,
    SortOrder,
    GroupBy,
    Aggregation,
}

/// A result column with its detected kind, as seen by contracts.
pub type ColumnEntry = (Seq<char>, ColumnType);

/// The popup entries listing result columns: each name with its kind label.
pub open spec fn column_items(cols: Seq<ColumnEntry>) -> Seq<(Seq<char>, Seq<char>)> {
    cols.map_values(|c: ColumnEntry| (c.0, column_type_label(c.1)))
}

/// The entries of the popup list of a field: label and detail of each.
pub open spec fn popup_items_of(cols: Seq<ColumnEntry>, field: PopupField) -> Seq<(Seq<char>, Seq<char>)> {
    match field {
        PopupField::ChartType => all_chart_types().map_values(|t: ChartType| (chart_type_label(t), Seq::<char>::empty())),
        PopupField::XColumn | PopupField::YColumn => column_items(cols),
        PopupField::SortOrder => all_sort_orders().map_values(|s: SortOrder| (sort_order_label(s), Seq::<char>::empty())),
        PopupField::GroupBy => seq![("(none)"@, Seq::<char>::empty())] + column_items(cols),
        PopupField::Aggregation => all_aggregations().map_values(|a: Aggregation| (aggregation_label(a), Seq::<char>::empty())),
    }
}

/// The number of entries of the popup list of a field.
pub open spec fn popup_len(cols: Seq<ColumnEntry>, field: PopupField) -> int {
    match field {
        PopupField::ChartType => 3,
        PopupField::XColumn | PopupField::YColumn => cols.len() as int,
        PopupField::SortOrder => 5,
        PopupField::GroupBy => cols.len() + 1int,
        PopupField::Aggregation => 7,
    }
}

/// The position of the first column named `name`.
pub open spec fn column_position(cols: Seq<ColumnEntry>, name: Seq<char>) -> Option<int>
    decreases cols.len(),
{
    if cols.len() == 0 {
        None
    } else if cols[0].0 == name {
        Some(0)
    } else {
        match column_position(cols.drop_first(), name) {
            Some(i) => Some(i + 1),
            None => None,
        }
    }
}

/// The position of a column choice among the columns: that of its first
/// column, or 0 when nothing is chosen or the column is gone.
pub open spec fn choice_position(cols: Seq<ColumnEntry>, choice: Option<String>) -> int {
    match choice {
        Some(name) => match column_position(cols, name@) {
            Some(i) => i,
            None => 0,
        },
        None => 0,
    }
}

/// The position of the chart kind among all kinds.
pub open spec fn chart_type_position(t: ChartType) -> int {
    match t {
        ChartType::Line => 0,
        ChartType::VerticalBar => 1,
        ChartType::HorizontalBar => 2,
    }
}

/// The position of the sort order among all orders.
pub open spec fn sort_order_position(s: SortOrder) -> int {
    match s {
        SortOrder::Unsorted => 0,
        SortOrder::XAscending => 1,
        SortOrder::XDescending => 2,
        SortOrder::YAscending => 3,
        SortOrder::YDescending => 4,
    }
}

/// The position of the aggregation among all aggregations.
pub open spec fn aggregation_position(a: Aggregation) -> int {
    match a {
        Aggregation::NoAggregation => 0,
        Aggregation::Sum => 1,
        Aggregation::Min => 2,
        Aggregation::Max => 3,
        Aggregation::Count => 4,
        Aggregation::Median => 5,
        Aggregation::Average => 6,
    }
}

/// The entry of a field's popup list that shows the current choice.
pub open spec fn popup_start(cols: Seq<ColumnEntry>, field: PopupField, config: ChartConfig) -> int {
    match field {
        PopupField::ChartType => chart_type_position(config.chart_type),
        PopupField::XColumn => choice_position(cols, config.x_column),
        PopupField::YColumn => choice_position(cols, config.y_column),
        PopupField::SortOrder => sort_order_position(config.sort_order),
        PopupField::GroupBy => match config.group_by {
            Some(g) => match column_position(cols, g@) {
                Some(i) => i + 1,
                None => 0,
            },
            None => 0,
        },
        PopupField::Aggregation => aggregation_position(config.aggregation),
    }
}

/// The popup field that a settings field opens (none for Generate).
pub open spec fn field_popup(f: SettingsFocus) -> Option<PopupField> {
    match f {
        SettingsFocus::ChartType => Some(PopupField::ChartType),
        SettingsFocus::XColumn => Some(PopupField::XColumn),
        SettingsFocus::YColumn => Some(PopupField::YColumn),
        SettingsFocus::SortOrder => Some(PopupField::SortOrder),
        SettingsFocus::GroupBy => Some(PopupField::GroupBy),
        SettingsFocus::Aggregation => Some(PopupField::Aggregation),
        SettingsFocus::Generate => None,
    }
}

/// The configuration after choosing entry `index` of a field's popup list:
/// the chosen kind, order or aggregation, or the chosen column (none for the
/// first entry of the group-by list); unchanged when the entry does not
/// exist.
pub open spec fn config_after_choice(
    cols: Seq<ColumnEntry>,
    field: PopupField,
    index: int,
    config: ChartConfig,
) -> (Option<Seq<char>>, Option<Seq<char>>, Option<Seq<char>>, ChartType, SortOrder, Aggregation) {
    let x = crate::parser::opt_view(config.x_column);
    let y = crate::parser::opt_view(config.y_column);
    let g = crate::parser::opt_view(config.group_by);
    let t = config.chart_type;
    let s = config.sort_order;
    let a = config.aggregation;
    match field {
        PopupField::ChartType => if 0 <= index < 3 {
            (x, y, g, all_chart_types()[index], s, a)
        } else {
            (x, y, g, t, s, a)
        },
        PopupField::XColumn => if 0 <= index < cols.len() {
            (Some(cols[index].0), y, g, t, s, a)
        } else {
            (x, y, g, t, s, a)
        },
        PopupField::YColumn => if 0 <= index < cols.len() {
            (x, Some(cols[index].0), g, t, s, a)
        } else {
            (x, y, g, t, s, a)
        },
        PopupField::SortOrder => if 0 <= index < 5 {
            (x, y, g, t, all_sort_orders()[index], a)
        } else {
            (x, y, g, t, s, a)
        },
        PopupField::GroupBy => if index == 0 {
            (x, y, None, t, s, a)
        } else if 1 <= index <= cols.len() {
            (x, y, Some(cols[index - 1].0), t, s, a)
        } else {
            (x, y, g, t, s, a)
        },
        PopupField::Aggregation => if 0 <= index < 7 {
            (x, y, g, t, s, all_aggregations()[index])
        } else {
            (x, y, g, t, s, a)
        },
    }
}

/// The parts of a configuration that contracts speak of.
pub open spec fn config_parts(config: ChartConfig) -> (Option<Seq<char>>, Option<Seq<char>>, Option<Seq<char>>, ChartType, SortOrder, Aggregation) {
    (
        crate::parser::opt_view(config.x_column),
        crate::parser::opt_view(config.y_column),
        crate::parser::opt_view(config.group_by),
        config.chart_type,
        config.sort_order,
        config.aggregation,
    )
}

/// What a chart tab shows: its label and its configuration.
pub open spec fn tab_content(t: ChartTab) -> (Seq<char>, (Option<Seq<char>>, Option<Seq<char>>, Option<Seq<char>>, ChartType, SortOrder, Aggregation)) {
    (t.label@, config_parts(t.config))
}

/// The settings panel of a chart: the focused field, the open popup list and
/// the entry highlighted in it, and the columns of the current result with
/// their kinds.
pub struct ChartSettings {
    pub focus: SettingsFocus,
    pub popup_open: Option<PopupField>,
    pub popup_index: usize,
    pub column_types: Vec<(String, ColumnType)>,
}

/// Finds the first column named `name`.
fn find_column(cols: &Vec<(String, ColumnType)>, name: &str) -> (r: Option<usize>)
    ensures
        match r {
            Some(i) => column_position(cols@.map_values(|c: (String, ColumnType)| (c.0@, c.1)), name@) == Some(i as int),
            None => column_position(cols@.map_values(|c: (String, ColumnType)| (c.0@, c.1)), name@) is None,
        },
{
    let ghost cv = cols@.map_values(|c: (String, ColumnType)| (c.0@, c.1));
    let mut i: usize = 0;
    while i < cols.len()
        invariant
            i <= cols@.len(),
            cv == cols@.map_values(|c: (String, ColumnType)| (c.0@, c.1)),
            forall|j: int| 0 <= j < i ==> (#[trigger] cv[j]).0 != name@,
        decreases cols@.len() - i,
    {
        if crate::text::str_eq(cols[i].0.as_str(), name) {
            proof {
                lemma_column_position_first(cv, name@, i as int);
            }
            return Some(i);
        }
        i += 1;
    }
    proof {
        lemma_column_position_none(cv, name@);
    }
    None
}

proof fn lemma_column_position_first(cols: Seq<ColumnEntry>, name: Seq<char>, i: int)
    requires
        0 <= i < cols.len(),
        cols[i].0 == name,
        forall|j: int| 0 <= j < i ==> (#[trigger] cols[j]).0 != name,
    ensures
        column_position(cols, name) == Some(i),
    decreases i,
{
    if i > 0 {
        let rest = cols.drop_first();
        assert forall|j: int| 0 <= j < i - 1 implies (#[trigger] rest[j]).0 != name by {
            assert(rest[j] == cols[j + 1]);
        }
        lemma_column_position_first(rest, name, i - 1);
    }
}

proof fn lemma_column_position_none(cols: Seq<ColumnEntry>, name: Seq<char>)
    requires
        forall|j: int| 0 <= j < cols.len() ==> (#[trigger] cols[j]).0 != name,
    ensures
        column_position(cols, name) is None,
    decreases cols.len(),
{
    if cols.len() > 0 {
        let rest = cols.drop_first();
        assert forall|j: int| 0 <= j < rest.len() implies (#[trigger] rest[j]).0 != name by {
            assert(rest[j] == cols[j + 1]);
        }
        lemma_column_position_none(rest, name);
    }
}

proof fn lemma_column_position_bound(cols: Seq<ColumnEntry>, name: Seq<char>)
    ensures
        match column_position(cols, name) {
            Some(i) => 0 <= i < cols.len(),
            None => true,
        },
    decreases cols.len(),
{
    if cols.len() > 0 {
        lemma_column_position_bound(cols.drop_first(), name);
    }
}

/// Copies a column name and kind list, mapping each entry to popup strings.
fn column_popup_items(cols: &Vec<(String, ColumnType)>, out: &mut Vec<(String, String)>)
    ensures
        final(out)@.map_values(|p: (String, String)| (p.0@, p.1@)) == old(out)@.map_values(
            |p: (String, String)| (p.0@, p.1@),
        ) + column_items(cols@.map_values(|c: (String, ColumnType)| (c.0@, c.1))),
{
    let ghost start = out@.map_values(|p: (String, String)| (p.0@, p.1@));
    let ghost cv = cols@.map_values(|c: (String, ColumnType)| (c.0@, c.1));
    let mut i: usize = 0;
    while i < cols.len()
        invariant
            i <= cols@.len(),
            cv == cols@.map_values(|c: (String, ColumnType)| (c.0@, c.1)),
            out@.map_values(|p: (String, String)| (p.0@, p.1@)) == start + column_items(cv.take(i as int)),
        decreases cols@.len() - i,
    {
        let ghost prev = out@;
        let name = cols[i].0.clone();
        let label = str_to_string(cols[i].1.short_label());
        out.push((name, label));
        assert(cv.take(i + 1) =~= cv.take(i as int).push(cv[i as int]));
        assert(out@.map_values(|p: (String, String)| (p.0@, p.1@)) =~= prev.map_values(|p: (String, String)| (p.0@, p.1@)).push((cv[i as int].0, column_type_label(cv[i as int].1))));
        assert(column_items(cv.take(i + 1)) =~= column_items(cv.take(i as int)).push((cv[i as int].0, column_type_label(cv[i as int].1))));
        i += 1;
    }
    assert(cv.take(cols@.len() as int) =~= cv);
}

fn labels_with_empty_detail(labels: Vec<&'static str>) -> (r: Vec<(String, String)>)
    ensures
        r@.map_values(|p: (String, String)| (p.0@, p.1@)) == labels@.map_values(|l: &str| (l@, Seq::<char>::empty())),
{
    let mut out: Vec<(String, String)> = Vec::new();
    let mut i: usize = 0;
    while i < labels.len()
        invariant
            i <= labels@.len(),
            out@.map_values(|p: (String, String)| (p.0@, p.1@)) == labels@.take(i as int).map_values(|l: &str| (l@, Seq::<char>::empty())),
        decreases labels@.len() - i,
    {
        let ghost prev = out@;
        let label = str_to_string(labels[i]);
        let empty = String::new();
        out.push((label, empty));
        assert(labels@.take(i + 1) =~= labels@.take(i as int).push(labels@[i as int]));
        assert(out@.map_values(|p: (String, String)| (p.0@, p.1@)) =~= prev.map_values(|p: (String, String)| (p.0@, p.1@)).push((labels@[i as int]@, Seq::<char>::empty())));
        assert(out@.map_values(|p: (String, String)| (p.0@, p.1@)) =~= labels@.take(i + 1).map_values(|l: &str| (l@, Seq::<char>::empty())));
        i += 1;
    }
    assert(labels@.take(labels@.len() as int) =~= labels@);
    out
}

proof fn lemma_popup_len(cols: Seq<ColumnEntry>, field: PopupField)
    ensures
        popup_items_of(cols, field).len() == popup_len(cols, field),
{
    assert(all_chart_types().len() == 3);
    assert(all_sort_orders().len() == 5);
    assert(all_aggregations().len() == 7);
}

/// What a key does to the chart settings panel and the configuration.
pub open spec fn chart_settings_key_post(pre: ChartSettings, post: ChartSettings, pre_cfg: ChartConfig, post_cfg: ChartConfig, key: KeyEvent, r: Option<bool>) -> bool {
    &&& post.columns() == pre.columns()
    &&& ({
            let code = key.code;
            match pre.popup_open {
                Some(_) => r == Some(false),
                None => if code == KeyCode::Char('j') || code == KeyCode::Down || code == KeyCode::Tab {
                    r == Some(false)
                        && settings_focus_index(post.focus) == (if settings_focus_index(pre.focus) < 6 { settings_focus_index(pre.focus) + 1 } else { 6 })
                        && post.popup_open is None && post.popup_index == pre.popup_index
                        && config_parts(post_cfg) == config_parts(pre_cfg)
                } else if code == KeyCode::Char('k') || code == KeyCode::Up {
                    r == Some(false)
                        && settings_focus_index(post.focus) == (if settings_focus_index(pre.focus) > 0 { settings_focus_index(pre.focus) - 1 } else { 0 })
                        && post.popup_open is None && post.popup_index == pre.popup_index
                        && config_parts(post_cfg) == config_parts(pre_cfg)
                } else if code == KeyCode::Enter || code == KeyCode::Char(' ') || code == KeyCode::Char('l') || code == KeyCode::Right {
                    r == Some(pre.focus == SettingsFocus::Generate)
                        && post.focus == pre.focus
                        && config_parts(post_cfg) == config_parts(pre_cfg)
                        && match field_popup(pre.focus) {
                            Some(field) => if popup_len(pre.columns(), field) > 0 {
                                post.popup_open == Some(field) && post.popup_index == popup_start(pre.columns(), field, pre_cfg)
                            } else {
                                post.popup_open is None && post.popup_index == pre.popup_index
                            },
                            None => post.popup_open is None && post.popup_index == pre.popup_index,
                        }
                } else if code == KeyCode::Esc {
                    r is None && post.focus == pre.focus && post.popup_open is None
                        && post.popup_index == pre.popup_index
                        && config_parts(post_cfg) == config_parts(pre_cfg)
                } else {
                    r == Some(false) && post.focus == pre.focus && post.popup_open is None
                        && post.popup_index == pre.popup_index
                        && config_parts(post_cfg) == config_parts(pre_cfg)
                },
            }
        })
    &&& pre.popup_open is Some ==> post.focus == pre.focus
}

impl ChartSettings {
    /// The columns of the current result with their kinds.
    pub open spec fn columns(&self) -> Seq<ColumnEntry> {
        self.column_types@.map_values(|c: (String, ColumnType)| (c.0@, c.1))
    }

    /// The panel focused on the chart kind, with no popup open and no columns.
    pub fn new() -> (r: Self)
        ensures
            r.focus == SettingsFocus::ChartType,
            r.popup_open is None,
            r.popup_index == 0,
            r.columns() == Seq::<ColumnEntry>::empty(),
    {
        let r = ChartSettings {
            focus: SettingsFocus::ChartType,
            popup_open: None,
            popup_index: 0,
            column_types: Vec::new(),
        };
        assert(r.columns() =~= Seq::<ColumnEntry>::empty());
        r
    }

    /// Replaces the columns with those of a new result.
    pub fn set_column_types(&mut self, types: Vec<(String, ColumnType)>)
        ensures
            final(self).columns() == types@.map_values(|c: (String, ColumnType)| (c.0@, c.1)),
            final(self).focus == old(self).focus,
            final(self).popup_open == old(self).popup_open,
            final(self).popup_index == old(self).popup_index,
    {
        self.column_types = types;
    }

    /// Takes the columns of a new result, with the kind of each.
    pub fn update_column_types(&mut self, result: &crate::parser::QueryResult)
        ensures
            final(self).columns().len() == result.columns@.len(),
            forall|i: int|
                0 <= i < final(self).columns().len() ==> (#[trigger] final(self).columns()[i]).0
                    == result.columns@[i]@ && final(self).columns()[i].1
                    == crate::column_kind::kind_of_counts(
                    crate::column_kind::column_counts(crate::column_kind::result_rows(*result), i),
                ),
            final(self).focus == old(self).focus,
            final(self).popup_open == old(self).popup_open,
            final(self).popup_index == old(self).popup_index,
    {
        self.column_types = crate::column_kind::detect_all_column_types(result);
    }

    /// Forgets the columns.
    pub fn clear_column_types(&mut self)
        ensures
            final(self).columns() == Seq::<ColumnEntry>::empty(),
            final(self).focus == old(self).focus,
            final(self).popup_open == old(self).popup_open,
            final(self).popup_index == old(self).popup_index,
    {
        self.column_types.clear();
        assert(self.columns() =~= Seq::<ColumnEntry>::empty());
    }

    /// The entries of a field's popup list: a label and a detail each.
    pub fn popup_items(&self, field: PopupField) -> (r: Vec<(String, String)>)
        ensures
            r@.map_values(|p: (String, String)| (p.0@, p.1@)) == popup_items_of(self.columns(), field),
    {
        match field {
            PopupField::ChartType => {
                let all = ChartType::all();
                let labels = vec![all[0].label(), all[1].label(), all[2].label()];
                let r = labels_with_empty_detail(labels);
                assert(r@.map_values(|p: (String, String)| (p.0@, p.1@)) =~= popup_items_of(self.columns(), field));
                r
            },
            PopupField::XColumn | PopupField::YColumn => {
                let mut r: Vec<(String, String)> = Vec::new();
                column_popup_items(&self.column_types, &mut r);
                assert(r@.map_values(|p: (String, String)| (p.0@, p.1@)) =~= popup_items_of(self.columns(), field));
                r
            },
            PopupField::SortOrder => {
                let all = SortOrder::all();
                let labels = vec![all[0].label(), all[1].label(), all[2].label(), all[3].label(), all[4].label()];
                let r = labels_with_empty_detail(labels);
                assert(r@.map_values(|p: (String, String)| (p.0@, p.1@)) =~= popup_items_of(self.columns(), field));
                r
            },
            PopupField::GroupBy => {
                let mut r: Vec<(String, String)> = Vec::new();
                r.push((str_to_string("(none)"), String::new()));
                column_popup_items(&self.column_types, &mut r);
                assert(r@.map_values(|p: (String, String)| (p.0@, p.1@)) =~= popup_items_of(self.columns(), field));
                r
            },
            PopupField::Aggregation => {
                let all = Aggregation::all();
                let labels = vec![
                    all[0].label(),
                    all[1].label(),
                    all[2].label(),
                    all[3].label(),
                    all[4].label(),
                    all[5].label(),
                    all[6].label(),
                ];
                let r = labels_with_empty_detail(labels);
                assert(r@.map_values(|p: (String, String)| (p.0@, p.1@)) =~= popup_items_of(self.columns(), field));
                r
            },
        }
    }

    /// Opens a field's popup list at the entry of the current choice; does
    /// nothing when the list would be empty.
    pub fn open_popup(&mut self, field: PopupField, config: &ChartConfig)
        ensures
            final(self).focus == old(self).focus,
            final(self).columns() == old(self).columns(),
            popup_len(old(self).columns(), field) == 0 ==> final(self).popup_open == old(self).popup_open
                && final(self).popup_index == old(self).popup_index,
            popup_len(old(self).columns(), field) > 0 ==> final(self).popup_open == Some(field)
                && final(self).popup_index == popup_start(old(self).columns(), field, *config),
    {
        let items = self.popup_items(field);
        proof {
            lemma_popup_len(self.columns(), field);
            assert(items@.len() == items@.map_values(|p: (String, String)| (p.0@, p.1@)).len());
        }
        if items.len() == 0 {
            return;
        }
        self.popup_open = Some(field);
        proof {
            lemma_column_position_bound(self.columns(), Seq::empty());
        }
        self.popup_index = match field {
            PopupField::ChartType => match config.chart_type {
                ChartType::Line => 0,
                ChartType::VerticalBar => 1,
                ChartType::HorizontalBar => 2,
            },
            PopupField::XColumn => match &config.x_column {
                Some(x) => match find_column(&self.column_types, x.as_str()) {
                    Some(i) => i,
                    None => 0,
                },
                None => 0,
            },
            PopupField::YColumn => match &config.y_column {
                Some(y) => match find_column(&self.column_types, y.as_str()) {
                    Some(i) => i,
                    None => 0,
                },
                None => 0,
            },
            PopupField::SortOrder => match config.sort_order {
                SortOrder::Unsorted => 0,
                SortOrder::XAscending => 1,
                SortOrder::XDescending => 2,
                SortOrder::YAscending => 3,
                SortOrder::YDescending => 4,
            },
            PopupField::GroupBy => match &config.group_by {
                Some(g) => match find_column(&self.column_types, g.as_str()) {
                    Some(i) => {
                        proof {
                            lemma_column_position_bound(self.columns(), g@);
                        }
                        i + 1
                    },
                    None => 0,
                },
                None => 0,
            },
            PopupField::Aggregation => match config.aggregation {
                Aggregation::NoAggregation => 0,
                Aggregation::Sum => 1,
                Aggregation::Min => 2,
                Aggregation::Max => 3,
                Aggregation::Count => 4,
                Aggregation::Median => 5,
                Aggregation::Average => 6,
            },
        };
    }

    /// Activates the focused field: opens its popup list, or reports that
    /// Generate was chosen.
    pub fn activate_field(&mut self, config: &ChartConfig) -> (r: bool)
        ensures
            r == (old(self).focus == SettingsFocus::Generate),
            final(self).focus == old(self).focus,
            final(self).columns() == old(self).columns(),
            match field_popup(old(self).focus) {
                Some(field) => if popup_len(old(self).columns(), field) > 0 {
                    final(self).popup_open == Some(field) && final(self).popup_index == popup_start(old(self).columns(), field, *config)
                } else {
                    final(self).popup_open == old(self).popup_open && final(self).popup_index == old(self).popup_index
                },
                None => final(self).popup_open == old(self).popup_open && final(self).popup_index == old(self).popup_index,
            },
    {
        match self.focus {
            SettingsFocus::ChartType => {
                self.open_popup(PopupField::ChartType, config);
                false
            },
            SettingsFocus::XColumn => {
                self.open_popup(PopupField::XColumn, config);
                false
            },
            SettingsFocus::YColumn => {
                self.open_popup(PopupField::YColumn, config);
                false
            },
            SettingsFocus::SortOrder => {
                self.open_popup(PopupField::SortOrder, config);
                false
            },
            SettingsFocus::GroupBy => {
                self.open_popup(PopupField::GroupBy, config);
                false
            },
            SettingsFocus::Aggregation => {
                self.open_popup(PopupField::Aggregation, config);
                false
            },
            SettingsFocus::Generate => true,
        }
    }

    /// Writes the highlighted entry of a field's popup list into the
    /// configuration.
    pub fn apply_popup_selection(&self, config: &mut ChartConfig, field: PopupField)
        ensures
            config_parts(*final(config)) == config_after_choice(
                self.columns(),
                field,
                self.popup_index as int,
                *old(config),
            ),
    {
        match field {
            PopupField::ChartType => {
                let types = ChartType::all();
                if self.popup_index < types.len() {
                    config.chart_type = types[self.popup_index];
                }
            },
            PopupField::XColumn => {
                if self.popup_index < self.column_types.len() {
                    config.x_column = Some(self.column_types[self.popup_index].0.clone());
                }
            },
            PopupField::YColumn => {
                if self.popup_index < self.column_types.len() {
                    config.y_column = Some(self.column_types[self.popup_index].0.clone());
                }
            },
            PopupField::SortOrder => {
                let sorts = SortOrder::all();
                if self.popup_index < sorts.len() {
                    config.sort_order = sorts[self.popup_index];
                }
            },
            PopupField::GroupBy => {
                if self.popup_index == 0 {
                    config.group_by = None;
                } else if self.popup_index - 1 < self.column_types.len() {
                    config.group_by = Some(self.column_types[self.popup_index - 1].0.clone());
                }
            },
            PopupField::Aggregation => {
                let aggs = Aggregation::all();
                if self.popup_index < aggs.len() {
                    config.aggregation = aggs[self.popup_index];
                }
            },
        }
    }

    /// A key while a popup list is open: `j`/Down and `k`/Up move the
    /// highlight within the list, Enter applies it and closes the list, Esc
    /// closes it. An empty list is closed at once. Generate is never
    /// activated here.
    pub fn handle_popup_key(&mut self, key: KeyEvent, config: &mut ChartConfig, field: PopupField) -> (r: bool)
        ensures
            !r,
            final(self).focus == old(self).focus,
            final(self).columns() == old(self).columns(),
            ({
                let count = popup_len(old(self).columns(), field);
                let code = key.code;
                if count == 0 {
                    final(self).popup_open is None && final(self).popup_index == old(self).popup_index
                        && config_parts(*final(config)) == config_parts(*old(config))
                } else if code == KeyCode::Char('j') || code == KeyCode::Down {
                    final(self).popup_open == old(self).popup_open
                        && final(self).popup_index == (if old(self).popup_index + 1 < count { old(self).popup_index + 1 } else { old(self).popup_index as int })
                        && config_parts(*final(config)) == config_parts(*old(config))
                } else if code == KeyCode::Char('k') || code == KeyCode::Up {
                    final(self).popup_open == old(self).popup_open
                        && final(self).popup_index == (if old(self).popup_index > 0 { old(self).popup_index - 1 } else { 0 })
                        && config_parts(*final(config)) == config_parts(*old(config))
                } else if code == KeyCode::Enter {
                    final(self).popup_open is None && final(self).popup_index == old(self).popup_index
                        && config_parts(*final(config)) == config_after_choice(old(self).columns(), field, old(self).popup_index as int, *old(config))
                } else if code == KeyCode::Esc {
                    final(self).popup_open is None && final(self).popup_index == old(self).popup_index
                        && config_parts(*final(config)) == config_parts(*old(config))
                } else {
                    final(self).popup_open == old(self).popup_open && final(self).popup_index == old(self).popup_index
                        && config_parts(*final(config)) == config_parts(*old(config))
                }
            }),
    {
        let items = self.popup_items(field);
        let count = items.len();
        proof {
            lemma_popup_len(self.columns(), field);
            assert(items@.len() == items@.map_values(|p: (String, String)| (p.0@, p.1@)).len());
        }
        if count == 0 {
            self.popup_open = None;
            return false;
        }
        match key.code {
            KeyCode::Char('j') | KeyCode::Down => {
                if self.popup_index < count - 1 {
                    self.popup_index += 1;
                }
                false
            },
            KeyCode::Char('k') | KeyCode::Up => {
                if self.popup_index > 0 {
                    self.popup_index -= 1;
                }
                false
            },
            KeyCode::Enter => {
                self.apply_popup_selection(config, field);
                self.popup_open = None;
                false
            },
            KeyCode::Esc => {
                self.popup_open = None;
                false
            },
            _ => false,
        }
    }

    /// A key for the settings panel. With a popup list open the key goes to
    /// it. Otherwise `j`/Down/Tab and `k`/Up move between fields,
    /// Enter/Space/`l`/Right activate the focused field, and Esc returns
    /// `None` so that the panel loses the keyboard. `Some(true)` reports that
    /// Generate was activated.
    pub fn handle_key(&mut self, key: KeyEvent, config: &mut ChartConfig) -> (r: Option<bool>)
        ensures

            chart_settings_key_post(*old(self), *final(self), *old(config), *final(config), key, r),
    {
        if let Some(field) = self.popup_open {
            return Some(self.handle_popup_key(key, config, field));
        }
        match key.code {
            KeyCode::Char('j') | KeyCode::Down | KeyCode::Tab => {
                self.focus = self.focus.next();
                Some(false)
            },
            KeyCode::Char('k') | KeyCode::Up => {
                self.focus = self.focus.prev();
                Some(false)
            },
            KeyCode::Enter | KeyCode::Char(' ') | KeyCode::Char('l') | KeyCode::Right => {
                Some(self.activate_field(config))
            },
            KeyCode::Char('h') | KeyCode::Left => Some(false),
            KeyCode::Esc => None,
            _ => Some(false),
        }
    }
}

} // verus!
