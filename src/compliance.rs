//! Deadlines and late-filing exposure for the annual filings of a company.
//!
//! From the end of a fiscal year the annual general meeting falls due 180
//! days later. The annual return (form `MGT-7`, section 92) is due 60 days
//! after that meeting; every other form, the financial statements (`AOC-4`,
//! section 137) among them, is due 30 days after it. A filing that is late on
//! the day of assessment carries a fee of 300 times a factor that grows with
//! the number of days it is late.

use vstd::prelude::*;
use crate::calendar::{iso_date_day, CalendarDate, MAX_DAY};
use crate::text::same_text;

verus! {

/// Days from the end of the fiscal year to the due date of the general meeting.
pub const AGM_WINDOW_DAYS: i32 = 180;

/// Days from the general meeting to the due date of the annual return.
pub const ANNUAL_RETURN_WINDOW_DAYS: i32 = 60;

/// Days from the general meeting to the due date of any other form.
pub const DEFAULT_WINDOW_DAYS: i32 = 30;

/// The fee that each unit of the penalty factor stands for.
pub const FEE_PER_FACTOR: i32 = 300;

/// How late a filing may be and still count as a moderate risk.
pub const MODERATE_LIMIT_DAYS: i32 = 60;

/// The qualitative risk of a filing on the day of assessment.
#[derive(Clone, Copy, Debug, PartialEq, Eq)]
pub enum RiskLevel {
    Safe,
    Moderate,
    Critical,
}

/// The section of the companies act under which a filing falls.
#[derive(Clone, Copy, Debug, PartialEq, Eq)]
pub enum ActSection {
    Sec92,
    Sec137,
}

impl RiskLevel {
    pub open spec fn label(self) -> Seq<char> {
        match self {
            RiskLevel::Safe => "SAFE"@,
            RiskLevel::Moderate => "MODERATE"@,
            RiskLevel::Critical => "CRITICAL"@,
        }
    }

    /// The label by which this level is reported.
    pub fn as_str(&self) -> (r: &'static str)
        ensures
            r@ == self.label(),
    {
        match self {
            RiskLevel::Safe => "SAFE",
            RiskLevel::Moderate => "MODERATE",
            RiskLevel::Critical => "CRITICAL",
        }
    }
}

impl ActSection {
    pub open spec fn label(self) -> Seq<char> {
        match self {
            ActSection::Sec92 => "Sec 92"@,
            ActSection::Sec137 => "Sec 137"@,
        }
    }

    /// The label by which this section is reported.
    pub fn as_str(&self) -> (r: &'static str)
        ensures
            r@ == self.label(),
    {
        match self {
            ActSection::Sec92 => "Sec 92",
            ActSection::Sec137 => "Sec 137",
        }
    }
}

/// The one form code that selects the annual-return path.
pub open spec fn is_annual_return(form: Seq<char>) -> bool {
    form == "MGT-7"@
}

/// Days from the general meeting to the filing due date of `form`.
pub open spec fn filing_window(form: Seq<char>) -> int {
    if is_annual_return(form) { ANNUAL_RETURN_WINDOW_DAYS as int } else { DEFAULT_WINDOW_DAYS as int }
}

pub open spec fn section_for(form: Seq<char>) -> ActSection {
    if is_annual_return(form) { ActSection::Sec92 } else { ActSection::Sec137 }
}

/// The penalty factor of a filing that is `days_late` days late (at least one).
pub open spec fn penalty_factor_for(days_late: int) -> int {
    if days_late <= 30 {
        2
    } else if days_late <= 60 {
        4
    } else if days_late <= 90 {
        6
    } else if days_late <= 180 {
        10
    } else {
        12
    }
}

/// The penalty when the assessment day is `days_late` days after the due date;
/// nothing is owed on or before the due date.
pub open spec fn penalty_for(days_late: int) -> int {
    if days_late <= 0 { 0 } else { FEE_PER_FACTOR * penalty_factor_for(days_late) }
}

pub open spec fn risk_level_for(days_late: int) -> RiskLevel {
    if days_late <= 0 {
        RiskLevel::Safe
    } else if days_late <= MODERATE_LIMIT_DAYS {
        RiskLevel::Moderate
    } else {
        RiskLevel::Critical
    }
}

/// The assessment of one filing.
#[derive(Clone, Copy, Debug, PartialEq, Eq)]
pub struct ComplianceRisk {
    pub agm_due_date: CalendarDate,
    pub filing_due_date: CalendarDate,
    pub penalty_estimate: i32,
    pub risk_level: RiskLevel,
    pub act_section: ActSection,
}

impl ComplianceRisk {
    /// This is the assessment, made on day `today`, of form `form` for the
    /// fiscal year that ended on day `fy_end`.
    pub open spec fn assesses(self, fy_end: int, form: Seq<char>, today: int) -> bool {
        &&& self.agm_due_date@ == fy_end + AGM_WINDOW_DAYS
        &&& self.filing_due_date@ == self.agm_due_date@ + filing_window(form)
        &&& self.act_section == section_for(form)
        &&& self.penalty_estimate == penalty_for(today - self.filing_due_date@)
        &&& self.risk_level == risk_level_for(today - self.filing_due_date@)
    }
}

/// A request for an assessment: the last day of the fiscal year, written
/// `YYYY-MM-DD`, and the code of the form.
#[derive(Clone, Debug)]
pub struct RiskQuery {
    pub fy_end_date: String,
    pub form_type: String,
}

/// Why a request could not be assessed.
#[derive(Clone, Copy, Debug, PartialEq, Eq)]
pub enum RiskQueryError {
    /// The fiscal-year end is not a date of the form `YYYY-MM-DD`.
    InvalidDate,
    /// The filing due date would fall beyond the last representable day.
    DateOutOfRange,
}

/// Whether `form_type` is the annual-return form.
pub fn is_annual_return_form(form_type: &str) -> (r: bool)
    ensures
        r == is_annual_return(form_type@),
{
    same_text(form_type, "MGT-7")
}

/// The penalty factor of a filing that is `days_late` days late.
pub fn penalty_factor(days_late: i32) -> (r: i32)
    requires
        days_late >= 0,
    ensures
        r == penalty_factor_for(days_late as int),
{
    if days_late <= 30 {
        2
    } else if days_late <= 60 {
        4
    } else if days_late <= 90 {
        6
    } else if days_late <= 180 {
        10
    } else {
        12
    }
}

/// Assesses, on day `today`, form `form_type` for the fiscal year that ended on
/// `fy_end`. Only the exact code `MGT-7` selects the annual-return path.
pub fn calculate_risk(fy_end: CalendarDate, form_type: &str, today: CalendarDate) -> (r:
    ComplianceRisk)
    requires
        fy_end@ + AGM_WINDOW_DAYS + filing_window(form_type@) <= MAX_DAY,
    ensures
        r.assesses(fy_end@, form_type@, today@),
{
    let agm_due_date = fy_end.add_days(AGM_WINDOW_DAYS);
    let annual_return = is_annual_return_form(form_type);
    let (filing_due_date, act_section) = if annual_return {
        (agm_due_date.add_days(ANNUAL_RETURN_WINDOW_DAYS), ActSection::Sec92)
    } else {
        (agm_due_date.add_days(DEFAULT_WINDOW_DAYS), ActSection::Sec137)
    };
    let days_late = today.days_since(&filing_due_date);
    let (penalty_estimate, risk_level) = if days_late <= 0 {
        (0, RiskLevel::Safe)
    } else {
        let level = if days_late > MODERATE_LIMIT_DAYS {
            RiskLevel::Critical
        } else {
            RiskLevel::Moderate
        };
        (FEE_PER_FACTOR * penalty_factor(days_late), level)
    };
    ComplianceRisk { agm_due_date, filing_due_date, penalty_estimate, risk_level, act_section }
}

/// Assesses a request on day `today`. A fiscal-year end that is not a date is
/// refused rather than replaced by another day.
pub fn analyze_risk(query: &RiskQuery, today: CalendarDate) -> (r: Result<
    ComplianceRisk,
    RiskQueryError,
>)
    ensures
        iso_date_day(query.fy_end_date@) is None ==> r == Err::<ComplianceRisk, RiskQueryError>(
            RiskQueryError::InvalidDate,
        ),
        iso_date_day(query.fy_end_date@) matches Some(fy_end) ==> if fy_end + AGM_WINDOW_DAYS
            + filing_window(query.form_type@) <= MAX_DAY {
            r matches Ok(risk) && risk.assesses(fy_end, query.form_type@, today@)
        } else {
            r == Err::<ComplianceRisk, RiskQueryError>(RiskQueryError::DateOutOfRange)
        },
{
    let form_type = query.form_type.as_str();
    match CalendarDate::parse_iso(query.fy_end_date.as_str()) {
        None => Err(RiskQueryError::InvalidDate),
        Some(fy_end) => {
            let window = if is_annual_return_form(form_type) {
                ANNUAL_RETURN_WINDOW_DAYS
            } else {
                DEFAULT_WINDOW_DAYS
            };
            let fy_end_day = fy_end.day_number();
            if fy_end_day <= MAX_DAY - AGM_WINDOW_DAYS - window {
                Ok(calculate_risk(fy_end, form_type, today))
            } else {
                Err(RiskQueryError::DateOutOfRange)
            }
        },
    }
}

/// Two assessments of the same form for the same fiscal year, made on the same
/// day, are identical.
pub proof fn lemma_assessment_deterministic(
    fy_end: CalendarDate,
    form: Seq<char>,
    today: CalendarDate,
    a: ComplianceRisk,
    b: ComplianceRisk,
)
    requires
        a.assesses(fy_end@, form, today@),
        b.assesses(fy_end@, form, today@),
    ensures
        a == b,
{
    CalendarDate::lemma_same_day(a.agm_due_date, b.agm_due_date);
    CalendarDate::lemma_same_day(a.filing_due_date, b.filing_due_date);
}

/// The meeting falls due 180 days after the fiscal year ends, and the filing
/// 60 days after the meeting for `MGT-7` and 30 days after it for any other form.
pub proof fn lemma_deadline_offsets(
    fy_end: CalendarDate,
    form: Seq<char>,
    today: CalendarDate,
    r: ComplianceRisk,
)
    requires
        r.assesses(fy_end@, form, today@),
    ensures
        r.agm_due_date@ - fy_end@ == 180,
        r.filing_due_date@ - r.agm_due_date@ == (if form == "MGT-7"@ {
            60int
        } else {
            30int
        }),
{
}

/// For the same filing, an assessment made on a later day never shows a
/// smaller penalty.
pub proof fn lemma_penalty_never_decreases(
    fy_end: CalendarDate,
    form: Seq<char>,
    earlier: CalendarDate,
    later: CalendarDate,
    a: ComplianceRisk,
    b: ComplianceRisk,
)
    requires
        a.assesses(fy_end@, form, earlier@),
        b.assesses(fy_end@, form, later@),
        earlier@ <= later@,
    ensures
        a.penalty_estimate <= b.penalty_estimate,
{
}

/// Once a filing is late, one more day raises its penalty exactly when the
/// number of days late reaches 31, 61, 91 or 181; otherwise the penalty stays.
pub proof fn lemma_penalty_steps_at_tiers(
    fy_end: CalendarDate,
    form: Seq<char>,
    today: CalendarDate,
    next_day: CalendarDate,
    a: ComplianceRisk,
    b: ComplianceRisk,
)
    requires
        a.assesses(fy_end@, form, today@),
        b.assesses(fy_end@, form, next_day@),
        next_day@ == today@ + 1,
        today@ > a.filing_due_date@,
    ensures
        b.penalty_estimate >= a.penalty_estimate,
        b.penalty_estimate > a.penalty_estimate <==> {
            let days_late = next_day@ - b.filing_due_date@;
            days_late == 31 || days_late == 61 || days_late == 91 || days_late == 181
        },
{
}

/// An assessment made on or before the filing due date, the due date itself
/// included, shows no penalty and a safe risk.
pub proof fn lemma_on_time_is_safe(
    fy_end: CalendarDate,
    form: Seq<char>,
    today: CalendarDate,
    r: ComplianceRisk,
)
    requires
        r.assesses(fy_end@, form, today@),
        today@ <= r.filing_due_date@,
    ensures
        r.penalty_estimate == 0,
        r.risk_level == RiskLevel::Safe,
{
}

/// The risk is critical exactly when the filing is more than 60 days late.
pub proof fn lemma_critical_after_sixty_days(
    fy_end: CalendarDate,
    form: Seq<char>,
    today: CalendarDate,
    r: ComplianceRisk,
)
    requires
        r.assesses(fy_end@, form, today@),
    ensures
        r.risk_level == RiskLevel::Critical <==> today@ - r.filing_due_date@ > 60,
{
}

/// The section is section 92 exactly when the form is `MGT-7`.
pub proof fn lemma_section_follows_form(
    fy_end: CalendarDate,
    form: Seq<char>,
    today: CalendarDate,
    r: ComplianceRisk,
)
    requires
        r.assesses(fy_end@, form, today@),
    ensures
        r.act_section == ActSection::Sec92 <==> form == "MGT-7"@,
{
}

} // verus!
