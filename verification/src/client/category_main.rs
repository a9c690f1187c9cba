//! The page that lists the categories of a user, creates and deletes them.

use vstd::prelude::*;
use vstd::string::*;
use crate::client::components::{type_into, typed, Key};
use crate::client::http::{Fetched, Response};
use crate::client::list::{step_down, step_up, stepped_down, stepped_up};
use crate::decimal::money_notation;
use crate::money::{natural_text, Money};
use crate::records::{Category, NewCategory, NewCategoryView};
use crate::text::{contains_text, count_text, joined, occurs_in};

verus! {

/// The form for a new category: what was typed into its four fields.
#[derive(Debug)]
pub struct CategoryForm {
    pub nickname: String,
    pub category_type: String,
    pub budget: String,
    pub budget_freq: String,
}

/// The categories page.
#[derive(Debug)]
pub struct CategoryMain {
    pub categories: Vec<Category>,
    /// The place of the selected category in the list.
    pub selected: Option<usize>,
    pub email: String,
    pub message: String,
    /// Whether the form for a new category is open.
    pub creating_category: bool,
    /// The field of the form that takes the keys, counted from 0 in the
    /// order nickname, type, budget, period.
    pub active_field: usize,
    pub form: CategoryForm,
    /// The nickname of the category that was created last, to select it
    /// when the list comes anew.
    pub last_operation_nickname: Option<String>,
}

/// What the page asks of the service after a key press.
#[derive(Debug)]
pub enum CategoryRequest {
    /// Nothing; the page stays.
    Nothing,
    /// Nothing; the page is left.
    Leave,
    /// Create this category.
    Create(NewCategory),
    /// Delete the category with this nickname.
    Delete(String),
}

/// The form as plain values.
pub struct CategoryFormView {
    pub nickname: Seq<char>,
    pub category_type: Seq<char>,
    pub budget: Seq<char>,
    pub budget_freq: Seq<char>,
}

impl View for CategoryForm {
    type V = CategoryFormView;

    open spec fn view(&self) -> CategoryFormView {
        CategoryFormView {
            nickname: self.nickname@,
            category_type: self.category_type@,
            budget: self.budget@,
            budget_freq: self.budget_freq@,
        }
    }
}

/// The categories page as plain values.
pub struct CategoryMainView {
    pub categories: Seq<Category>,
    pub selected: Option<usize>,
    pub email: Seq<char>,
    pub message: Seq<char>,
    pub creating_category: bool,
    pub active_field: usize,
    pub form: CategoryFormView,
    pub last_operation_nickname: Option<Seq<char>>,
}

/// A request as plain values.
pub enum CategoryRequestView {
    Nothing,
    Leave,
    Create(NewCategoryView),
    Delete(Seq<char>),
}

impl View for CategoryMain {
    type V = CategoryMainView;

    open spec fn view(&self) -> CategoryMainView {
        CategoryMainView {
            categories: self.categories@,
            selected: self.selected,
            email: self.email@,
            message: self.message@,
            creating_category: self.creating_category,
            active_field: self.active_field,
            form: self.form@,
            last_operation_nickname: match self.last_operation_nickname {
                Some(nickname) => Some(nickname@),
                None => None,
            },
        }
    }
}

impl View for CategoryRequest {
    type V = CategoryRequestView;

    open spec fn view(&self) -> CategoryRequestView {
        match self {
            CategoryRequest::Nothing => CategoryRequestView::Nothing,
            CategoryRequest::Leave => CategoryRequestView::Leave,
            CategoryRequest::Create(category) => CategoryRequestView::Create(category@),
            CategoryRequest::Delete(nickname) => CategoryRequestView::Delete(nickname@),
        }
    }
}

/// The form with nothing typed into it.
pub open spec fn blank_form() -> CategoryFormView {
    CategoryFormView {
        nickname: Seq::empty(),
        category_type: Seq::empty(),
        budget: Seq::empty(),
        budget_freq: Seq::empty(),
    }
}

/// The form after a key was typed into the field with the given number.
pub open spec fn form_typed(form: CategoryFormView, field: usize, key: Key) -> CategoryFormView {
    if field == 0 {
        CategoryFormView { nickname: typed(form.nickname, key), ..form }
    } else if field == 1 {
        CategoryFormView { category_type: typed(form.category_type, key), ..form }
    } else if field == 2 {
        CategoryFormView { budget: typed(form.budget, key), ..form }
    } else if field == 3 {
        CategoryFormView { budget_freq: typed(form.budget_freq, key), ..form }
    } else {
        form
    }
}

/// Whether some field of the form is empty.
pub open spec fn has_gap(form: CategoryFormView) -> bool {
    form.nickname.len() == 0 || form.category_type.len() == 0 || form.budget.len() == 0
        || form.budget_freq.len() == 0
}

/// The page after the form was sent off with the enter key: a form with an
/// empty field or with a budget that is no amount leaves a message; any
/// other asks for the category to be created, and its nickname is kept.
pub open spec fn form_entered(page: CategoryMainView) -> (CategoryMainView, CategoryRequestView) {
    if has_gap(page.form) {
        (
            CategoryMainView { message: "Please fill in all fields"@, ..page },
            CategoryRequestView::Nothing,
        )
    } else {
        match money_notation(page.form.budget) {
            None => (
                CategoryMainView { message: "Invalid budget value"@, ..page },
                CategoryRequestView::Nothing,
            ),
            Some(budget) => (
                CategoryMainView { last_operation_nickname: Some(page.form.nickname), ..page },
                CategoryRequestView::Create(
                    NewCategoryView {
                        email: page.email,
                        nickname: page.form.nickname,
                        category_type: page.form.category_type,
                        budget,
                        budget_freq: page.form.budget_freq,
                    },
                ),
            ),
        }
    }
}

/// The form after a key press.
pub open spec fn form_after(page: CategoryMainView, key: Key) -> (
    CategoryMainView,
    CategoryRequestView,
) {
    match key {
        Key::Tab => (
            CategoryMainView { active_field: ((page.active_field + 1) % 4) as usize, ..page },
            CategoryRequestView::Nothing,
        ),
        Key::Enter => form_entered(page),
        Key::Char(_) | Key::Backspace => (
            CategoryMainView { form: form_typed(page.form, page.active_field, key), ..page },
            CategoryRequestView::Nothing,
        ),
        _ => (page, CategoryRequestView::Nothing),
    }
}

/// What deleting the selected category asks for.
pub open spec fn delete_selected(page: CategoryMainView) -> CategoryRequestView {
    match page.selected {
        Some(at) => if at < page.categories.len() {
            CategoryRequestView::Delete(page.categories[at as int].nickname@)
        } else {
            CategoryRequestView::Nothing
        },
        None => CategoryRequestView::Nothing,
    }
}

/// The list after a key press. `n` opens a blank form; `d` deletes the
/// selected category; `u` deletes it and opens a blank form to create it
/// anew.
pub open spec fn list_after(page: CategoryMainView, key: Key) -> (
    CategoryMainView,
    CategoryRequestView,
) {
    match key {
        Key::Char('n') => (
            CategoryMainView {
                creating_category: true,
                form: blank_form(),
                active_field: 0,
                ..page
            },
            CategoryRequestView::Nothing,
        ),
        Key::Char('d') => (page, delete_selected(page)),
        Key::Char('u') => (
            CategoryMainView { creating_category: true, form: blank_form(), ..page },
            delete_selected(page),
        ),
        Key::Up => (
            CategoryMainView {
                selected: stepped_up(page.selected, page.categories.len()),
                ..page
            },
            CategoryRequestView::Nothing,
        ),
        Key::Down => (
            CategoryMainView {
                selected: stepped_down(page.selected, page.categories.len()),
                ..page
            },
            CategoryRequestView::Nothing,
        ),
        _ => (page, CategoryRequestView::Nothing),
    }
}

/// The page after a key press, and what it asks of the service. Escape
/// closes the form if it is open, and leaves the page if not.
pub open spec fn page_after(page: CategoryMainView, key: Key) -> (
    CategoryMainView,
    CategoryRequestView,
) {
    if key == Key::Esc {
        if page.creating_category {
            (CategoryMainView { creating_category: false, ..page }, CategoryRequestView::Nothing)
        } else {
            (page, CategoryRequestView::Leave)
        }
    } else if page.creating_category {
        form_after(page, key)
    } else {
        list_after(page, key)
    }
}

/// The place of the first category with the given nickname from `from` on.
pub open spec fn first_named(categories: Seq<Category>, nickname: Seq<char>, from: int) -> Option<
    usize,
>
    decreases categories.len() - from,
{
    if from < 0 || from >= categories.len() {
        None
    } else if categories[from].nickname@ == nickname {
        Some(from as usize)
    } else {
        first_named(categories, nickname, from + 1)
    }
}

/// The selection after the list came anew: the category that was created
/// last, if it is in the list; without such a category to look for, the
/// first entry, if the list has one and nothing was selected.
pub open spec fn selection_after_fetch(
    selected: Option<usize>,
    last: Option<Seq<char>>,
    categories: Seq<Category>,
) -> Option<usize> {
    match last {
        Some(nickname) => match first_named(categories, nickname, 0) {
            Some(at) => Some(at),
            None => selected,
        },
        None => if categories.len() > 0 && selected is None {
            Some(0)
        } else {
            selected
        },
    }
}

/// The page after the service was asked for the categories.
pub open spec fn page_fetched(page: CategoryMainView, outcome: Fetched<Category>) -> CategoryMainView {
    match outcome {
        Fetched::Loaded(categories) => CategoryMainView {
            categories: categories@,
            selected: selection_after_fetch(
                page.selected,
                page.last_operation_nickname,
                categories@,
            ),
            message: "Loaded "@ + natural_text(categories@.len()) + " categories"@,
            last_operation_nickname: None,
            ..page
        },
        Fetched::Unparsable => CategoryMainView { message: "Failed to parse category data"@, ..page },
        Fetched::Refused => CategoryMainView { message: "Failed to fetch categories"@, ..page },
        Fetched::Failed(error) => CategoryMainView {
            message: "Error fetching categories: "@ + error@,
            ..page
        },
    }
}

/// The page after the service was asked to create a category: after status
/// 201 the form is closed and blank.
pub open spec fn page_created(page: CategoryMainView, response: Response) -> CategoryMainView {
    match response {
        Response::Answered { status, body } => if status == 201 {
            CategoryMainView {
                message: "Category created successfully"@,
                creating_category: false,
                form: blank_form(),
                active_field: 0,
                ..page
            }
        } else if status == 400 {
            CategoryMainView { message: body@, ..page }
        } else {
            CategoryMainView { message: "Failed to create category: "@ + body@, ..page }
        },
        Response::Failed { error } => CategoryMainView {
            message: "Error creating category: "@ + error@,
            ..page
        },
    }
}

/// The message after the service was asked to delete a category.
pub open spec fn delete_message(response: Response) -> Seq<char> {
    match response {
        Response::Answered { status, body } => if status == 200 {
            "Category deleted successfully"@
        } else {
            "Failed to delete category: "@ + body@
        },
        Response::Failed { error } => "Error deleting category: "@ + error@,
    }
}

impl CategoryForm {
    /// The form with nothing typed into it.
    pub fn new() -> (form: CategoryForm)
        ensures
            form@ == blank_form(),
    {
        CategoryForm {
            nickname: String::new(),
            category_type: String::new(),
            budget: String::new(),
            budget_freq: String::new(),
        }
    }

    /// Applies a key press to the field with the given number.
    pub fn type_key(&mut self, field: usize, key: Key)
        ensures
            final(self)@ == form_typed(old(self)@, field, key),
    {
        if field == 0 {
            type_into(&mut self.nickname, key);
        } else if field == 1 {
            type_into(&mut self.category_type, key);
        } else if field == 2 {
            type_into(&mut self.budget, key);
        } else if field == 3 {
            type_into(&mut self.budget_freq, key);
        }
    }

    /// Whether some field of the form is empty.
    pub fn has_gap(&self) -> (gap: bool)
        ensures
            gap == has_gap(self@),
    {
        self.nickname.as_str().is_empty() || self.category_type.as_str().is_empty()
            || self.budget.as_str().is_empty() || self.budget_freq.as_str().is_empty()
    }
}

/// The place of the first category with the given nickname.
fn find_named(categories: &Vec<Category>, nickname: &String) -> (place: Option<usize>)
    ensures
        place == first_named(categories@, nickname@, 0),
{
    let mut at: usize = 0;
    while at < categories.len()
        invariant
            at <= categories.len(),
            first_named(categories@, nickname@, 0) == first_named(categories@, nickname@, at as int),
        decreases categories.len() - at,
    {
        if categories[at].nickname == *nickname {
            return Some(at);
        }
        at += 1;
    }
    None
}

impl CategoryMain {
    /// The page of the user with the given email, before its categories
    /// are there.
    pub fn new(email: String) -> (page: CategoryMain)
        ensures
            page@ == (CategoryMainView {
                categories: Seq::empty(),
                selected: None,
                email: email@,
                message: "Loading categories..."@,
                creating_category: false,
                active_field: 0,
                form: blank_form(),
                last_operation_nickname: None,
            }),
    {
        let page = CategoryMain {
            categories: Vec::new(),
            selected: None,
            email,
            message: String::from_str("Loading categories..."),
            creating_category: false,
            active_field: 0,
            form: CategoryForm::new(),
            last_operation_nickname: None,
        };
        assert(page@.categories =~= Seq::empty());
        page
    }

    /// Applies a key press to the page and says what to ask of the service.
    pub fn handle_input(&mut self, key: Key) -> (request: CategoryRequest)
        ensures
            (final(self)@, request@) == page_after(old(self)@, key),
    {
        if let Key::Esc = key {
            if self.creating_category {
                self.creating_category = false;
                return CategoryRequest::Nothing;
            }
            return CategoryRequest::Leave;
        }
        if self.creating_category {
            self.handle_create_input(key)
        } else {
            self.handle_list_input(key)
        }
    }

    /// Applies a key press to the form.
    fn handle_create_input(&mut self, key: Key) -> (request: CategoryRequest)
        ensures
            (final(self)@, request@) == form_after(old(self)@, key),
    {
        match key {
            Key::Tab => {
                self.active_field = if self.active_field == usize::MAX {
                    0
                } else {
                    (self.active_field + 1) % 4
                };
                CategoryRequest::Nothing
            },
            Key::Enter => self.submit_new_category(),
            Key::Char(_) | Key::Backspace => {
                self.form.type_key(self.active_field, key);
                CategoryRequest::Nothing
            },
            _ => CategoryRequest::Nothing,
        }
    }

    /// Sends the form off, if it is filled in and its budget is an amount.
    fn submit_new_category(&mut self) -> (request: CategoryRequest)
        ensures
            (final(self)@, request@) == form_entered(old(self)@),
    {
        if self.form.has_gap() {
            self.message = String::from_str("Please fill in all fields");
            return CategoryRequest::Nothing;
        }
        match Money::parse(self.form.budget.as_str()) {
            None => {
                self.message = String::from_str("Invalid budget value");
                CategoryRequest::Nothing
            },
            Some(budget) => {
                self.last_operation_nickname = Some(self.form.nickname.clone());
                CategoryRequest::Create(
                    NewCategory {
                        email: self.email.clone(),
                        nickname: self.form.nickname.clone(),
                        category_type: self.form.category_type.clone(),
                        budget,
                        budget_freq: self.form.budget_freq.clone(),
                    },
                )
            },
        }
    }

    /// What deleting the selected category asks for.
    fn delete_selected(&self) -> (request: CategoryRequest)
        ensures
            request@ == delete_selected(self@),
    {
        match self.selected {
            Some(at) => {
                if at < self.categories.len() {
                    CategoryRequest::Delete(self.categories[at].nickname.clone())
                } else {
                    CategoryRequest::Nothing
                }
            },
            None => CategoryRequest::Nothing,
        }
    }

    /// Applies a key press to the list.
    fn handle_list_input(&mut self, key: Key) -> (request: CategoryRequest)
        ensures
            (final(self)@, request@) == list_after(old(self)@, key),
    {
        match key {
            Key::Char('n') => {
                self.creating_category = true;
                self.form = CategoryForm::new();
                self.active_field = 0;
                CategoryRequest::Nothing
            },
            Key::Char('d') => self.delete_selected(),
            Key::Char('u') => {
                let request = self.delete_selected();
                self.creating_category = true;
                self.form = CategoryForm::new();
                request
            },
            Key::Up => {
                self.selected = step_up(self.selected, self.categories.len());
                CategoryRequest::Nothing
            },
            Key::Down => {
                self.selected = step_down(self.selected, self.categories.len());
                CategoryRequest::Nothing
            },
            _ => CategoryRequest::Nothing,
        }
    }

    /// Takes in what the service answered when asked for the categories.
    pub fn fetched(&mut self, outcome: Fetched<Category>)
        ensures
            final(self)@ == page_fetched(old(self)@, outcome),
    {
        match outcome {
            Fetched::Loaded(categories) => {
                let mut message = joined("Loaded ", count_text(categories.len()).as_str());
                message.append(" categories");
                match &self.last_operation_nickname {
                    Some(nickname) => {
                        match find_named(&categories, nickname) {
                            Some(at) => {
                                self.selected = Some(at);
                            },
                            None => {},
                        }
                    },
                    None => {
                        if categories.len() > 0 && self.selected.is_none() {
                            self.selected = Some(0);
                        }
                    },
                }
                self.categories = categories;
                self.message = message;
                self.last_operation_nickname = None;
            },
            Fetched::Unparsable => {
                self.message = String::from_str("Failed to parse category data");
            },
            Fetched::Refused => {
                self.message = String::from_str("Failed to fetch categories");
            },
            Fetched::Failed(error) => {
                self.message = joined("Error fetching categories: ", error.as_str());
            },
        }
    }

    /// Takes in what the service answered when asked to create a category,
    /// and says whether to ask for the categories anew: after status 201.
    pub fn created(&mut self, response: Response) -> (again: bool)
        ensures
            again == (response matches Response::Answered { status, .. } && status == 201),
            final(self)@ == page_created(old(self)@, response),
    {
        match response {
            Response::Answered { status, body } => {
                if status == 201 {
                    self.message = String::from_str("Category created successfully");
                    self.creating_category = false;
                    self.form = CategoryForm::new();
                    self.active_field = 0;
                    true
                } else if status == 400 {
                    self.message = body;
                    false
                } else {
                    self.message = joined("Failed to create category: ", body.as_str());
                    false
                }
            },
            Response::Failed { error } => {
                self.message = joined("Error creating category: ", error.as_str());
                false
            },
        }
    }

    /// Takes in what the service answered when asked to delete a category,
    /// and says whether to ask for the categories anew: after status 200.
    pub fn deleted(&mut self, response: Response) -> (again: bool)
        ensures
            again == (response matches Response::Answered { status, .. } && status == 200),
            final(self)@ == (CategoryMainView { message: delete_message(response), ..old(self)@ }),
    {
        match response {
            Response::Answered { status, body } => {
                if status == 200 {
                    self.message = String::from_str("Category deleted successfully");
                    true
                } else {
                    self.message = joined("Failed to delete category: ", body.as_str());
                    false
                }
            },
            Response::Failed { error } => {
                self.message = joined("Error deleting category: ", error.as_str());
                false
            },
        }
    }

    /// Where to ask for the categories of the user.
    pub fn fetch_url(&self) -> (url: String)
        ensures
            url@ == "http://localhost:8000/category_summary?email="@ + self.email@,
    {
        joined("http://localhost:8000/category_summary?email=", self.email.as_str())
    }

    /// Where to ask for the deletion of the category with the given
    /// nickname.
    pub fn delete_url(&self, nickname: &str) -> (url: String)
        ensures
            url@ == "http://localhost:8000/delete_category?email="@ + self.email@
                + "&category_nickname="@ + nickname@,
    {
        let mut url = joined("http://localhost:8000/delete_category?email=", self.email.as_str());
        url.append("&category_nickname=");
        url.append(nickname);
        url
    }

    /// Whether the message reports a failure, and is shown as one.
    pub fn message_is_alarming(&self) -> (alarming: bool)
        ensures
            alarming == (occurs_in(self.message@, "Error"@) || occurs_in(self.message@, "Failed"@)),
    {
        contains_text(self.message.as_str(), "Error") || contains_text(
            self.message.as_str(),
            "Failed",
        )
    }
}

} // verus!
