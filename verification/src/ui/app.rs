//! The desktop application's state and how it reacts to messages.

use std::collections::HashMap;

use vstd::prelude::*;
use vstd::string::*;

use crate::client::{spec_api_error_message, APIError};
use crate::model::article::Article;
use crate::model::item::Item;
use crate::model::list::{item_ids, FlatItemsList, List, ListView};
use crate::model::requests::{LoginUserV1, RegisterUserV1};
use crate::model::shop::Shop;
use crate::model::user::User;
use crate::text::join2;
use crate::ui::home::{home_after, HomeCommand, HomeMessage, HomeView};
use crate::ui::login::{login_after, LoginCommand, LoginMessage, LoginView};

verus! {

broadcast use vstd::std_specs::hash::group_hash_axioms;

/// The pages of the application.
#[derive(Debug, Clone, Copy, PartialEq, Eq, Structural)]
pub enum Page {
    Home,
    Login,
    List(u64),
    Article(u64),
    Shop(u64),
    Settings,
}

/// How prominently a notification is shown.
#[derive(Debug, Clone, Copy, PartialEq, Eq, Structural)]
pub enum Status {
    Primary,
    Danger,
}

/// A notification shown on top of the page.
#[derive(Debug, Clone)]
pub struct Toast {
    pub title: String,
    pub body: String,
    pub status: Status,
}

/// Something to notify the user of.
#[derive(Debug)]
pub enum GuiMessage {
    ApiError(APIError),
    Other(Toast),
}

/// The messages the application reacts to.
#[derive(Debug)]
pub enum MainMessage {
    /// Nothing happened.
    NoOp,
    UserChanged(User),
    /// Store new lists in the local cache; no API call is made.
    NewLists(Vec<FlatItemsList>),
    FetchArticles(Vec<u64>),
    FetchShops(Vec<u64>),
    /// Query the API for the latest data of the current page.
    Refresh,
    ListMetaChanged(List),
    PageChanged(Page),
    Toast(GuiMessage),
    CloseToast(usize),
    Login(LoginMessage),
    Home(HomeMessage),
}

/// The API calls the application asks to be made after a message.
#[derive(Debug)]
pub enum MainCommand {
    Nothing,
    FetchAllLists,
    Login(LoginUserV1),
    Register(RegisterUserV1),
    CreateList,
}

/// The state of the application.
#[derive(Debug)]
pub struct Einkaufsliste {
    pub user: Option<User>,
    pub login_view: LoginView,
    pub home_view: HomeView,
    pub current_page: Page,
    pub toasts: Vec<Toast>,
    /// The metadata of each list, in the order received.
    pub lists: Vec<List>,
    /// The items of each list, by list id.
    pub items: HashMap<u64, Vec<Item>>,
    /// The articles available locally, by id.
    pub articles: HashMap<u64, Article>,
    /// The shops available locally, by id.
    pub shops: HashMap<u64, Shop>,
}

/// The metadata a flattened list is stored as: its items become ids.
pub open spec fn flat_meta(f: FlatItemsList) -> ListView {
    ListView {
        id: f.id,
        name: f.name@,
        shop: f.shop,
        image_id: f.image_id,
        items: item_ids(f.items@),
    }
}

/// The views of the lists.
pub open spec fn list_views(lists: Seq<List>) -> Seq<ListView> {
    lists.map_values(|l: List| l@)
}

/// The items by list id, as sequences.
pub open spec fn items_view(m: Map<u64, Vec<Item>>) -> Map<u64, Seq<Item>> {
    m.map_values(|v: Vec<Item>| v@)
}

/// The items by list id after storing new lists one after the other; a later
/// list replaces the items of an earlier one with the same id.
pub open spec fn items_after(m: Map<u64, Seq<Item>>, new: Seq<FlatItemsList>) -> Map<u64, Seq<Item>>
    decreases new.len(),
{
    if new.len() == 0 {
        m
    } else {
        items_after(m, new.drop_last()).insert(new.last().id, new.last().items@)
    }
}

/// The position of the first list with id `id`, or the number of lists.
pub open spec fn first_list_with_id(lists: Seq<List>, id: u64, from: int) -> int
    decreases lists.len() - from,
{
    if from >= lists.len() {
        lists.len() as int
    } else if lists[from].id == id {
        from
    } else {
        first_list_with_id(lists, id, from + 1)
    }
}

/// The part of the window title naming the current page.
pub open spec fn page_title(app: Einkaufsliste) -> Seq<char> {
    match app.current_page {
        Page::Home => "Home"@,
        Page::Login => "Login"@,
        Page::List(id) => {
            let k = first_list_with_id(app.lists@, id, 0);
            if k < app.lists@.len() {
                app.lists@[k].name@
            } else {
                "Unknown list"@
            }
        },
        Page::Article(id) => if app.articles@.contains_key(id) {
            app.articles@[id].name@
        } else {
            "Unknown article"@
        },
        Page::Shop(id) => if app.shops@.contains_key(id) {
            app.shops@[id].name@
        } else {
            "Unknown shop"@
        },
        Page::Settings => "Settings"@,
    }
}

/// The lists, items, articles and shops are the same in both states.
pub open spec fn data_unchanged(a: Einkaufsliste, b: Einkaufsliste) -> bool {
    &&& a.lists@ == b.lists@
    &&& a.items@ == b.items@
    &&& a.articles@ == b.articles@
    &&& a.shops@ == b.shops@
}

/// The messages whose handling is not supported.
pub open spec fn unsupported(message: MainMessage) -> bool {
    ||| message is FetchArticles
    ||| message is FetchShops
    ||| message is ListMetaChanged
    ||| message matches MainMessage::Home(HomeMessage::DeleteSelection)
}

impl Einkaufsliste {
    /// The state at start-up: nobody logged in, on the overview page, no data.
    pub fn new() -> (app: Self)
        ensures
            app.user is None,
            app.current_page == Page::Home,
            app.toasts@.len() == 0,
            app.lists@.len() == 0,
            app.items@ == Map::<u64, Vec<Item>>::empty(),
            app.articles@ == Map::<u64, Article>::empty(),
            app.shops@ == Map::<u64, Shop>::empty(),
    {
        Einkaufsliste {
            user: None,
            login_view: LoginView::new(),
            home_view: HomeView::new(),
            current_page: Page::Home,
            toasts: Vec::new(),
            lists: Vec::new(),
            items: HashMap::new(),
            articles: HashMap::new(),
            shops: HashMap::new(),
        }
    }

    /// The window title: the application's name and the page shown.
    pub fn title(&self) -> (t: String)
        ensures
            t@ == "Einkaufsliste - "@ + page_title(*self),
    {
        let mut k: usize = 0;
        let name: &str = match self.current_page {
            Page::Home => "Home",
            Page::Login => "Login",
            Page::List(id) => {
                while k < self.lists.len() && self.lists[k].id != id
                    invariant
                        0 <= k <= self.lists@.len(),
                        first_list_with_id(self.lists@, id, 0) == first_list_with_id(
                            self.lists@,
                            id,
                            k as int,
                        ),
                    decreases self.lists@.len() - k,
                {
                    k = k + 1;
                }
                if k < self.lists.len() {
                    self.lists[k].name.as_str()
                } else {
                    "Unknown list"
                }
            },
            Page::Article(id) => match self.articles.get(&id) {
                Some(article) => article.name.as_str(),
                None => "Unknown article",
            },
            Page::Shop(id) => match self.shops.get(&id) {
                Some(shop) => shop.name.as_str(),
                None => "Unknown shop",
            },
            Page::Settings => "Settings",
        };
        join2("Einkaufsliste - ", name)
    }

    /// Stores flattened lists: their metadata is appended to the lists,
    /// their items are stored by list id.
    fn store_new_lists(&mut self, lists: Vec<FlatItemsList>)
        ensures
            list_views(final(self).lists@) == list_views(old(self).lists@) + lists@.map_values(
                |f: FlatItemsList| flat_meta(f),
            ),
            items_view(final(self).items@) == items_after(items_view(old(self).items@), lists@),
            final(self).user == old(self).user,
            final(self).current_page == old(self).current_page,
            final(self).toasts@ == old(self).toasts@,
            final(self).login_view == old(self).login_view,
            final(self).home_view == old(self).home_view,
    {
        let ghost all = lists@;
        let mut rest = lists;
        let ghost mut i: int = 0;
        while rest.len() > 0
            invariant
                0 <= i <= all.len(),
                i + rest@.len() == all.len(),
                rest@ == all.skip(i),
                list_views(self.lists@) == list_views(old(self).lists@) + all.take(
                    i,
                ).map_values(|f: FlatItemsList| flat_meta(f)),
                items_view(self.items@) == items_after(items_view(old(self).items@), all.take(i)),
                self.user == old(self).user,
                self.current_page == old(self).current_page,
                self.toasts@ == old(self).toasts@,
                self.login_view == old(self).login_view,
                self.home_view == old(self).home_view,
            decreases rest@.len(),
        {
            let flat = rest.remove(0);
            assert(flat == all[i]);
            let ghost flat_copy = flat;
            let (list, items) = flat.into_list_and_items();
            let ghost before = self.items@;
            let ghost lv = list@;
            assert(lv == flat_meta(flat_copy));
            self.items.insert(list.id, items);
            assert(all.take(i + 1).drop_last() =~= all.take(i));
            assert(items_view(self.items@) =~= items_view(before).insert(
                flat_copy.id,
                flat_copy.items@,
            ));
            let ghost lists_before = self.lists@;
            self.lists.push(list);
            assert(list_views(self.lists@) =~= list_views(lists_before).push(lv));
            assert(all.take(i + 1).map_values(|f: FlatItemsList| flat_meta(f)) =~= all.take(
                i,
            ).map_values(|f: FlatItemsList| flat_meta(f)).push(flat_meta(all[i])));
            assert(list_views(self.lists@) =~= list_views(old(self).lists@) + all.take(
                i + 1,
            ).map_values(|f: FlatItemsList| flat_meta(f)));
            proof {
                i = i + 1;
            }
            assert(rest@ =~= all.skip(i));
        }
        assert(all.take(i) =~= all);
    }

    /// Reacts to a message; returns the API call to make, if any.
    pub fn update(&mut self, message: MainMessage) -> (c: MainCommand)
        requires
            !unsupported(message),
            message matches MainMessage::CloseToast(i) ==> i < old(self).toasts@.len(),
        ensures
            !(message is NewLists) ==> data_unchanged(*old(self), *final(self)),
            !(message is Login) ==> final(self).login_view == old(self).login_view,
            !(message is Home) ==> final(self).home_view == old(self).home_view,
            message is NoOp ==> c is Nothing && *final(self) == *old(self),
            message matches MainMessage::UserChanged(u) ==> c is Nothing && final(self).user == Some(
                u,
            ) && final(self).current_page == Page::Home && final(self).toasts@ == old(self).toasts@,
            message matches MainMessage::NewLists(ls) ==> c is Nothing && list_views(
                final(self).lists@,
            ) == list_views(old(self).lists@) + ls@.map_values(|f: FlatItemsList| flat_meta(f))
                && items_view(final(self).items@) == items_after(items_view(old(self).items@), ls@)
                && final(self).current_page == old(self).current_page && final(self).user == old(
                self,
            ).user && final(self).toasts@ == old(self).toasts@,
            message is Refresh ==> *final(self) == *old(self) && (old(self).current_page
                == Page::Home ==> c is FetchAllLists) && (old(self).current_page != Page::Home
                ==> c is Nothing),
            message matches MainMessage::PageChanged(p) ==> c is Nothing && final(self).current_page
                == p && final(self).user == old(self).user && final(self).toasts@ == old(
                self,
            ).toasts@,
            message matches MainMessage::Toast(GuiMessage::ApiError(e)) ==> c is Nothing
                && final(self).toasts@.len() == old(self).toasts@.len() + 1
                && final(self).toasts@.take(old(self).toasts@.len() as int) == old(self).toasts@
                && final(self).toasts@.last().body@ == spec_api_error_message(e)
                && (e is Unauthenticated ==> final(self).user is None && final(self).current_page
                == Page::Login && final(self).toasts@.last().title@
                == "You are not authenticated"@ && final(self).toasts@.last().status
                == Status::Primary) && (e is Network ==> final(self).user == old(self).user
                && final(self).current_page == old(self).current_page
                && final(self).toasts@.last().title@ == "Network error"@
                && final(self).toasts@.last().status == Status::Primary) && (!(e is Network)
                && !(e is Unauthenticated) ==> final(self).user == old(self).user
                && final(self).current_page == old(self).current_page
                && final(self).toasts@.last().title@ == "Unknown error"@
                && final(self).toasts@.last().status == Status::Danger),
            message matches MainMessage::Toast(GuiMessage::Other(t)) ==> c is Nothing
                && final(self).toasts@ == old(self).toasts@.push(t) && final(self).user == old(
                self,
            ).user && final(self).current_page == old(self).current_page,
            message matches MainMessage::CloseToast(i) ==> c is Nothing && final(self).toasts@
                == old(self).toasts@.remove(i as int) && final(self).user == old(self).user
                && final(self).current_page == old(self).current_page,
            message matches MainMessage::Login(m) ==> (match m {
                LoginMessage::Login => c matches MainCommand::Login(r) && r.name@ == old(
                    self,
                ).login_view.username@ && r.password@ == old(self).login_view.password@,
                LoginMessage::Register => c matches MainCommand::Register(r) && r.name@ == old(
                    self,
                ).login_view.username@ && r.password@ == old(self).login_view.password@,
                _ => c is Nothing,
            }),
            message matches MainMessage::Login(m) ==> (final(self).login_view.username@,
            final(self).login_view.password@) == login_after(
                old(self).login_view.username@,
                old(self).login_view.password@,
                m,
            ) && final(self).user == old(self).user && final(self).current_page == old(
                self,
            ).current_page && final(self).toasts@ == old(self).toasts@,
            message matches MainMessage::Home(m) ==> (m is NewList <==> c is CreateList) && (!(
            m is NewList) ==> c is Nothing),
            message matches MainMessage::Home(m) ==> (final(self).home_view.selection_mode,
            final(self).home_view.selected_lists@) == home_after(
                old(self).home_view.selection_mode,
                old(self).home_view.selected_lists@,
                m,
            ) && final(self).user == old(self).user && final(self).current_page == old(
                self,
            ).current_page && final(self).toasts@ == old(self).toasts@,
    {
        match message {
            MainMessage::NoOp => MainCommand::Nothing,
            MainMessage::UserChanged(user) => {
                self.user = Some(user);
                // after logging in the overview is shown
                self.current_page = Page::Home;
                MainCommand::Nothing
            },
            MainMessage::NewLists(lists) => {
                self.store_new_lists(lists);
                MainCommand::Nothing
            },
            MainMessage::Refresh => match self.current_page {
                Page::Home => MainCommand::FetchAllLists,
                _ => MainCommand::Nothing,
            },
            MainMessage::PageChanged(page) => {
                self.current_page = page;
                MainCommand::Nothing
            },
            MainMessage::Toast(GuiMessage::ApiError(e)) => {
                let body = e.message();
                match e {
                    APIError::Unauthenticated => {
                        self.user = None;
                        // tell the user why the page changes
                        self.toasts.push(
                            Toast {
                                title: String::from_str("You are not authenticated"),
                                body,
                                status: Status::Primary,
                            },
                        );
                        self.current_page = Page::Login;
                    },
                    APIError::Network(_) => {
                        self.toasts.push(
                            Toast {
                                title: String::from_str("Network error"),
                                body,
                                status: Status::Primary,
                            },
                        );
                    },
                    _ => {
                        self.toasts.push(
                            Toast {
                                title: String::from_str("Unknown error"),
                                body,
                                status: Status::Danger,
                            },
                        );
                    },
                }
                assert(self.toasts@.take(old(self).toasts@.len() as int) =~= old(self).toasts@);
                MainCommand::Nothing
            },
            MainMessage::Toast(GuiMessage::Other(toast)) => {
                self.toasts.push(toast);
                MainCommand::Nothing
            },
            MainMessage::CloseToast(index) => {
                self.toasts.remove(index);
                MainCommand::Nothing
            },
            MainMessage::Login(m) => match self.login_view.update(m) {
                LoginCommand::Nothing => MainCommand::Nothing,
                LoginCommand::Login(r) => MainCommand::Login(r),
                LoginCommand::Register(r) => MainCommand::Register(r),
            },
            MainMessage::Home(m) => match self.home_view.update(m) {
                HomeCommand::Nothing => MainCommand::Nothing,
                HomeCommand::CreateList => MainCommand::CreateList,
            },
            MainMessage::FetchArticles(_) => MainCommand::Nothing,
            MainMessage::FetchShops(_) => MainCommand::Nothing,
            MainMessage::ListMetaChanged(_) => MainCommand::Nothing,
        }
    }
}

/// The message a finished refresh of the overview turns into: the fetched
/// lists, without items yet, or a notification of the failure.
pub fn refresh_outcome(result: Result<Vec<List>, APIError>) -> (m: MainMessage)
    ensures
        result matches Ok(ls) ==> (m matches MainMessage::NewLists(fs) && fs@.len() == ls@.len()
            && forall|i: int| 0 <= i < ls@.len() ==> #[trigger] fs@[i].id == ls@[i].id
                && fs@[i].name@ == ls@[i].name@ && fs@[i].shop == ls@[i].shop && fs@[i].image_id
                == ls@[i].image_id && fs@[i].items@.len() == 0),
        result matches Err(e) ==> (m matches MainMessage::Toast(GuiMessage::ApiError(f)) && f == e),
{
    match result {
        Ok(lists) => {
            let ghost all = lists@;
            let mut rest = lists;
            let mut flats: Vec<FlatItemsList> = Vec::new();
            while rest.len() > 0
                invariant
                    flats@.len() + rest@.len() == all.len(),
                    rest@ == all.skip(flats@.len() as int),
                    forall|i: int| 0 <= i < flats@.len() ==> #[trigger] flats@[i].id == all[i].id
                        && flats@[i].name@ == all[i].name@ && flats@[i].shop == all[i].shop
                        && flats@[i].image_id == all[i].image_id && flats@[i].items@.len() == 0,
                decreases rest@.len(),
            {
                let list = rest.remove(0);
                let f = FlatItemsList::from_list_and_items(list, Vec::new());
                flats.push(f);
                assert(rest@ =~= all.skip(flats@.len() as int));
            }
            MainMessage::NewLists(flats)
        },
        Err(e) => MainMessage::Toast(GuiMessage::ApiError(e)),
    }
}

/// The message a finished login or registration turns into: the logged-in
/// user, or a notification of the failure.
pub fn login_outcome(result: Result<User, APIError>) -> (m: MainMessage)
    ensures
        result matches Ok(u) ==> (m matches MainMessage::UserChanged(v) && v == u),
        result matches Err(e) ==> (m matches MainMessage::Toast(GuiMessage::ApiError(f)) && f == e),
{
    match result {
        Ok(user) => MainMessage::UserChanged(user),
        Err(e) => MainMessage::Toast(GuiMessage::ApiError(e)),
    }
}

} // verus!
