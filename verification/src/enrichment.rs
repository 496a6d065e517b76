use vstd::prelude::*;
use crate::schema::clone_opt_string;

verus! {

/// Additional company facts a research run may report. Each field only ever
/// fills a column that is still empty; the revenue figure is carried as a
/// whole amount.
#[derive(Debug)]
pub struct LeadEnrichment {
    pub website: Option<String>,
    pub industry: Option<String>,
    pub sub_industry: Option<String>,
    pub employees: Option<i64>,
    pub employee_range: Option<String>,
    pub revenue: Option<i64>,
    pub revenue_range: Option<String>,
    pub company_linkedin_url: Option<String>,
    pub city: Option<String>,
    pub state: Option<String>,
    pub country: Option<String>,
}

/// Additional person facts a research run may report.
#[derive(Debug)]
pub struct PersonEnrichment {
    pub email: Option<String>,
    pub title: Option<String>,
    pub management_level: Option<String>,
    pub linkedin_url: Option<String>,
    pub year_joined: Option<i64>,
}

/// One person as listed in a research run's people output.
#[derive(Debug)]
pub struct ParsedPersonData {
    pub first_name: String,
    pub last_name: String,
    pub email: Option<String>,
    pub title: Option<String>,
    pub linkedin_url: Option<String>,
    pub management_level: Option<String>,
    pub year_joined: Option<i64>,
}

impl Clone for ParsedPersonData {
    fn clone(&self) -> (r: Self)
        ensures
            r == *self,
    {
        ParsedPersonData {
            first_name: self.first_name.clone(),
            last_name: self.last_name.clone(),
            email: clone_opt_string(&self.email),
            title: clone_opt_string(&self.title),
            linkedin_url: clone_opt_string(&self.linkedin_url),
            management_level: clone_opt_string(&self.management_level),
            year_joined: self.year_joined,
        }
    }
}

/// Keeps `current` where it already holds a value and takes `incoming` only
/// where the column is still empty: the null-only update rule.
pub open spec fn spec_coalesce<T>(current: Option<T>, incoming: Option<T>) -> Option<T> {
    match current {
        Some(v) => Some(v),
        None => incoming,
    }
}

/// Null-only merge of an optional string column.
pub fn coalesce_string(current: &Option<String>, incoming: &Option<String>) -> (r: Option<String>)
    ensures
        r == spec_coalesce(*current, *incoming),
{
    match current {
        Some(v) => Some(v.clone()),
        None => clone_opt_string(incoming),
    }
}

/// Null-only merge of an optional integer column.
pub fn coalesce_i64(current: &Option<i64>, incoming: &Option<i64>) -> (r: Option<i64>)
    ensures
        r == spec_coalesce(*current, *incoming),
{
    match current {
        Some(v) => Some(*v),
        None => *incoming,
    }
}

} // verus!
