//! The reports view: the overview counts, the choice of report and format, and
//! the messages of an export.

use vstd::prelude::*;
use vstd::string::*;
use vstd::view::View as _;
use crate::state::{AppState, StatusType};
use crate::text::{owned, push_str};

verus! {

/// What an export holds.
#[derive(Debug, Clone, Copy, PartialEq, Eq, Structural)]
pub enum ReportType {
    AllPersons,
    AllRelationships,
    Statistics,
}

/// The file format of an export.
#[derive(Debug, Clone, Copy, PartialEq, Eq, Structural)]
pub enum ExportFormat {
    Json,
    Csv,
    Pdf,
}

/// The counts of the overview.
pub struct StatsCache {
    pub total_persons: i64,
    pub living_persons: i64,
    pub deceased_persons: i64,
    pub total_relationships: i64,
    pub total_documents: i64,
}

/// The reports view.
pub struct ReportsView {
    pub selected_report: ReportType,
    pub selected_format: ExportFormat,
    /// The message of the last export that succeeded.
    pub last_result: Option<String>,
    pub stats_cache: Option<StatsCache>,
    pub needs_refresh: bool,
}

/// The message after an export: its summary and where it was saved.
pub open spec fn export_done_text(summary: Seq<char>, path: Seq<char>) -> Seq<char> {
    summary + " sparad till "@ + path
}

impl ReportsView {
    /// All persons as JSON, no counts yet; they load on the first display.
    pub fn new() -> (v: ReportsView)
        ensures
            v.selected_report == ReportType::AllPersons,
            v.selected_format == ExportFormat::Json,
            v.last_result is None,
            v.stats_cache is None,
            v.needs_refresh,
    {
        ReportsView {
            selected_report: ReportType::AllPersons,
            selected_format: ExportFormat::Json,
            last_result: None,
            stats_cache: None,
            needs_refresh: true,
        }
    }

    /// Asks for the counts to be read again.
    pub fn mark_needs_refresh(&mut self)
        ensures
            *final(self) == (ReportsView { needs_refresh: true, ..*old(self) }),
    {
        self.needs_refresh = true;
    }

    /// Takes the counts read: the dead are the persons that are not living.
    pub fn stats_loaded(
        &mut self,
        total_persons: i64,
        living_persons: i64,
        total_relationships: i64,
        total_documents: i64,
    )
        requires
            i64::MIN <= total_persons - living_persons <= i64::MAX,
        ensures
            final(self).stats_cache matches Some(s) && s.total_persons == total_persons
                && s.living_persons == living_persons && s.deceased_persons == total_persons
                - living_persons && s.total_relationships == total_relationships
                && s.total_documents == total_documents,
            !final(self).needs_refresh,
            final(self).selected_report == old(self).selected_report,
            final(self).selected_format == old(self).selected_format,
    {
        self.stats_cache = Some(
            StatsCache {
                total_persons,
                living_persons,
                deceased_persons: total_persons - living_persons,
                total_relationships,
                total_documents,
            },
        );
        self.needs_refresh = false;
    }

    /// What the chosen report holds, as the view describes it.
    pub fn description(&self) -> (r: &'static str)
        ensures
            self.selected_report == ReportType::AllPersons ==> r@
                == "Exporterar alla personer med namn, datum, ålder och anteckningar."@,
            self.selected_report == ReportType::AllRelationships ==> r@
                == "Exporterar alla relationer mellan personer med namn och relationstyp."@,
            self.selected_report == ReportType::Statistics ==> r@
                == "Exporterar en sammanfattning med statistik om databasen."@,
    {
        match self.selected_report {
            ReportType::AllPersons => "Exporterar alla personer med namn, datum, ålder och anteckningar.",
            ReportType::AllRelationships => "Exporterar alla relationer mellan personer med namn och relationstyp.",
            ReportType::Statistics => "Exporterar en sammanfattning med statistik om databasen.",
        }
    }

    /// After an export was saved: the message stays in the view and shows as a
    /// success.
    pub fn export_done(&mut self, state: &mut AppState, summary: &str, path: &str)
        ensures
            final(self).last_result matches Some(t) && t@ == export_done_text(summary@, path@),
            final(state).status_message matches Some(m) && m.text@ == export_done_text(
                summary@,
                path@,
            ) && m.status_type == StatusType::Success,
            final(self).selected_report == old(self).selected_report,
    {
        let mut m = owned(summary);
        push_str(&mut m, " sparad till ");
        push_str(&mut m, path);
        state.show_success(m.as_str());
        self.last_result = Some(m);
    }

    /// After an export failed.
    pub fn export_failed(&self, state: &mut AppState, e: &str)
        ensures
            final(state).status_message matches Some(m) && m.text@ == "Export misslyckades: "@
                + e@ && m.status_type == StatusType::Error,
    {
        let mut m = owned("Export misslyckades: ");
        push_str(&mut m, e);
        state.show_error(m.as_str());
    }
}

} // verus!
