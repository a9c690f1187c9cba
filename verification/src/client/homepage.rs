//! The home page of a user who has logged in.

use vstd::prelude::*;
use crate::text::text_views;

verus! {

/// The home page: who is logged in, and the three overviews it shows.
#[derive(Debug)]
pub struct Homepage {
    pub username: String,
    pub email: String,
    pub report_overview: Vec<String>,
    pub category_overview: Vec<String>,
    pub account_overview: Vec<String>,
}

/// The home page as plain values.
pub struct HomepageView {
    pub username: Seq<char>,
    pub email: Seq<char>,
    pub report_overview: Seq<Seq<char>>,
    pub category_overview: Seq<Seq<char>>,
    pub account_overview: Seq<Seq<char>>,
}

impl View for Homepage {
    type V = HomepageView;

    open spec fn view(&self) -> HomepageView {
        HomepageView {
            username: self.username@,
            email: self.email@,
            report_overview: text_views(self.report_overview@),
            category_overview: text_views(self.category_overview@),
            account_overview: text_views(self.account_overview@),
        }
    }
}

impl Homepage {
    /// The home page of the user with the given name and email, showing the
    /// given overviews.
    pub fn new(
        username: String,
        email: String,
        report_overview: Vec<String>,
        category_overview: Vec<String>,
        account_overview: Vec<String>,
    ) -> (page: Homepage)
        ensures
            page@ == (HomepageView {
                username: username@,
                email: email@,
                report_overview: text_views(report_overview@),
                category_overview: text_views(category_overview@),
                account_overview: text_views(account_overview@),
            }),
    {
        Homepage { username, email, report_overview, category_overview, account_overview }
    }
}

} // verus!
