//! Courses as the registration service lists them.

use vstd::prelude::*;

verus! {

/// A course of the catalogue. Any of its texts may be missing.
#[derive(Debug)]
pub struct Course {
    pub id: u64,
    pub term_effective: Option<String>,
    pub course_number: Option<String>,
    pub subject: Option<String>,
    pub subject_code: Option<String>,
    pub college: Option<String>,
    pub college_code: Option<String>,
    pub department: Option<String>,
    pub department_code: Option<String>,
    pub course_title: Option<String>,
    pub credit_hour_indicator: Option<String>,
    pub subject_description: Option<String>,
    pub course_description: Option<String>,
    pub division: Option<String>,
    pub term_start: Option<String>,
    pub term_end: Option<String>,
}

/// How one column of the search results is shown.
#[derive(Debug)]
pub struct CourseSearchConfig {
    pub config: Option<String>,
    pub display: Option<String>,
    pub title: Option<String>,
    pub required: bool,
    pub width: Option<String>,
}

/// Which counts the search results show.
#[derive(Debug)]
pub struct DisplaySettings {
    pub enrollment_display: Option<String>,
    pub waitlist_display: Option<String>,
    pub cross_list_display: Option<String>,
}

/// One page of search results.
#[derive(Debug)]
pub struct CourseList {
    pub success: bool,
    pub total_count: u64,
    pub data: Vec<Course>,
    pub page_offset: u64,
    pub page_max_size: u64,
    pub path_mode: Option<String>,
    pub course_search_results_configs: Vec<CourseSearchConfig>,
    pub display_settings: DisplaySettings,
    pub is_plan_by_crn_set_for_term: bool,
}

} // verus!
