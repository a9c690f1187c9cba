//! The parameters that the service's requests carry.

use vstd::prelude::*;

verus! {

/// Asks for the accounts of a user.
#[derive(Debug)]
pub struct AccountQuery {
    pub email: String,
}

/// Asks to delete one account of a user.
#[derive(Debug)]
pub struct DeleteAccountQuery {
    pub email: String,
    pub account_name: String,
}

/// Asks to delete one category of a user.
#[derive(Debug)]
pub struct DeleteCategoryQuery {
    pub email: String,
    pub category_nickname: String,
}

/// Asks for the categories of a user.
#[derive(Debug)]
pub struct CategoryQuery {
    pub email: String,
}

/// Asks to set one field of a category to a new value.
#[derive(Debug)]
pub struct CategoryUpdateQuery {
    pub email: String,
    pub field: String,
    pub category_nickname: String,
    pub new_value: String,
}

/// Asks for the flat overview of a user's spending.
#[derive(Debug)]
pub struct OverviewQuery {
    pub email: String,
}

/// Asks for the spending report of a user.
#[derive(Debug)]
pub struct DetailsQuery {
    pub email: String,
}

/// Asks to delete the transaction with the given id, written in decimal.
#[derive(Debug)]
pub struct DeleteTransQuery {
    pub trans_id: String,
}

/// Asks for the transactions of one category of a user.
#[derive(Debug)]
pub struct CategoryTransQuery {
    pub category_name: String,
    pub email: String,
}

/// Asks for the transactions of one account of a user.
#[derive(Debug)]
pub struct AccountTransQuery {
    pub account_name: String,
    pub email: String,
}

} // verus!
