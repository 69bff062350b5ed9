//! Site entities.

use vstd::prelude::*;

verus! {

/// Graph API site object.
#[derive(Debug, Clone, Default)]
pub struct Site {
    pub created_date_time: Option<String>,
    pub display_name: Option<String>,
    pub id: String,
    pub name: Option<String>,
    pub root: Option<SiteRoot>,
    pub site_collection: Option<SiteCollect>,
    pub web_url: Option<String>,
}

impl crate::lookup::NamedEntity for Site {
    open spec fn match_name(&self, name: Seq<char>) -> bool {
        match self.display_name {
            Some(n) => n@ == name,
            None => false,
        }
    }

    fn name_matches(&self, name: &String) -> (r: bool) {
        match &self.display_name {
            Some(n) => *n == *name,
            None => false,
        }
    }
}

#[derive(Debug, Clone, Default)]
pub struct SiteRoot {
    pub id: Option<String>,
}

#[derive(Debug, Clone, Default)]
pub struct SiteCollect {
    pub hostname: Option<String>,
}

#[derive(Debug, Clone, Default)]
pub struct SiteCollection {
    pub odata_context: Option<String>,
    pub value: Vec<Site>,
}

} // verus!
