//! Records of the watch-history tracker.

use vstd::prelude::*;
use vstd::string::StringExecFns;
use crate::http::Header;
use crate::queue::Queue;
use crate::string_set::StringSet;
use crate::text::{join_strs, joined};
use crate::uniq::first_appearances;
use crate::time::Timestamp;

verus! {

/// Identifiers that outside catalogs gave to an item.
#[derive(Debug, Default, PartialEq, Eq)]
pub struct ProviderIds {
    pub tmdb: Option<String>,
    pub tvdb: Option<String>,
}

/// What the tracker knows of one user's history with an item.
#[derive(Debug, Default, PartialEq, Eq)]
pub struct ItemUserData {
    pub last_played_date: Option<Timestamp>,
    pub is_favorite: bool,
}

/// A watched movie, series or episode as the tracker reports it.
///
/// `id` is the tracker's own identifier and means nothing to a library
/// manager; matching goes by the catalog identifiers and, for episodes, by
/// the season and episode ordinals.
#[derive(Debug, Default, PartialEq, Eq)]
pub struct Item {
    pub name: String,
    pub id: String,
    pub provider_ids: Option<ProviderIds>,
    pub user_data: Option<ItemUserData>,
    pub parent_index_number: Option<u32>,
    pub index_number: Option<u32>,
}

/// The body of the tracker's answer to an item query.
#[derive(Debug, Default, PartialEq, Eq)]
pub struct ItemsResponse {
    pub items: Vec<Item>,
}

/// A copy of an optional string.
pub fn copy_text(text: &Option<String>) -> (copy: Option<String>)
    ensures
        copy == *text,
{
    match text {
        Some(s) => Some(s.clone()),
        None => None,
    }
}

impl Clone for ProviderIds {
    fn clone(&self) -> (copy: Self)
        ensures
            copy == *self,
    {
        ProviderIds { tmdb: copy_text(&self.tmdb), tvdb: copy_text(&self.tvdb) }
    }
}

impl Clone for ItemUserData {
    fn clone(&self) -> (copy: Self)
        ensures
            copy == *self,
    {
        ItemUserData { last_played_date: self.last_played_date, is_favorite: self.is_favorite }
    }
}

impl Clone for Item {
    fn clone(&self) -> (copy: Self)
        ensures
            copy == *self,
    {
        Item {
            name: self.name.clone(),
            id: self.id.clone(),
            provider_ids: match &self.provider_ids {
                Some(ids) => Some(ids.clone()),
                None => None,
            },
            user_data: match &self.user_data {
                Some(data) => Some(data.clone()),
                None => None,
            },
            parent_index_number: self.parent_index_number,
            index_number: self.index_number,
        }
    }
}

impl Item {
    /// The movie-catalog identifier, as a sequence of characters.
    pub open spec fn tmdb(&self) -> Option<Seq<char>> {
        match self.provider_ids {
            Some(ids) => match ids.tmdb {
                Some(id) => Some(id@),
                None => None,
            },
            None => None,
        }
    }

    /// The series-catalog identifier, as a sequence of characters.
    pub open spec fn tvdb(&self) -> Option<Seq<char>> {
        match self.provider_ids {
            Some(ids) => match ids.tvdb {
                Some(id) => Some(id@),
                None => None,
            },
            None => None,
        }
    }

    /// When the item was last played, if the tracker says.
    pub open spec fn last_played(&self) -> Option<Timestamp> {
        match self.user_data {
            Some(data) => data.last_played_date,
            None => None,
        }
    }

    /// Whether the user marked the item as a favorite.
    pub open spec fn favorite(&self) -> bool {
        match self.user_data {
            Some(data) => data.is_favorite,
            None => false,
        }
    }

    pub fn tmdb_id(&self) -> (id: Option<&str>)
        ensures
            id is Some == self.tmdb() is Some,
            id matches Some(s) ==> self.tmdb() == Some(s@),
    {
        match &self.provider_ids {
            Some(ids) => match &ids.tmdb {
                Some(id) => Some(id.as_str()),
                None => None,
            },
            None => None,
        }
    }

    pub fn tvdb_id(&self) -> (id: Option<&str>)
        ensures
            id is Some == self.tvdb() is Some,
            id matches Some(s) ==> self.tvdb() == Some(s@),
    {
        match &self.provider_ids {
            Some(ids) => match &ids.tvdb {
                Some(id) => Some(id.as_str()),
                None => None,
            },
            None => None,
        }
    }

    /// The season ordinal of an episode.
    pub fn season_number(&self) -> (n: Option<u32>)
        ensures
            n == self.parent_index_number,
    {
        self.parent_index_number
    }

    /// The ordinal of an episode within its season.
    pub fn episode_number(&self) -> (n: Option<u32>)
        ensures
            n == self.index_number,
    {
        self.index_number
    }

    pub fn last_played_date(&self) -> (t: Option<Timestamp>)
        ensures
            t == self.last_played(),
    {
        match &self.user_data {
            Some(data) => data.last_played_date,
            None => None,
        }
    }

    pub fn is_favorite(&self) -> (b: bool)
        ensures
            b == self.favorite(),
    {
        match &self.user_data {
            Some(data) => data.is_favorite,
            None => false,
        }
    }
}

/// The catalogs by whose identifiers entries are found again: one scheme
/// for movies, another for series.
#[derive(Clone, Copy, Debug, PartialEq, Eq, Structural)]
pub enum Catalog {
    Tmdb,
    Tvdb,
}

impl Item {
    /// The item's identifier in a catalog.
    pub open spec fn catalog(&self, catalog: Catalog) -> Option<Seq<char>> {
        match catalog {
            Catalog::Tmdb => self.tmdb(),
            Catalog::Tvdb => self.tvdb(),
        }
    }

    /// The item's identifier in a catalog.
    pub fn catalog_id(&self, catalog: Catalog) -> (id: Option<&str>)
        ensures
            id is Some == self.catalog(catalog) is Some,
            id matches Some(s) ==> self.catalog(catalog) == Some(s@),
    {
        match catalog {
            Catalog::Tmdb => self.tmdb_id(),
            Catalog::Tvdb => self.tvdb_id(),
        }
    }
}

/// The identifiers of the items that have one, in the order of the items.
pub open spec fn listed_ids(items: Seq<Item>, catalog: Catalog) -> Seq<Seq<char>>
    decreases items.len(),
{
    if items.len() == 0 {
        Seq::empty()
    } else {
        match items.last().catalog(catalog) {
            Some(id) => listed_ids(items.drop_last(), catalog).push(id),
            None => listed_ids(items.drop_last(), catalog),
        }
    }
}

/// Whether an item has this identifier in the catalog.
pub open spec fn with_id(catalog: Catalog, id: Seq<char>) -> spec_fn(Item) -> bool {
    |item: Item| item.catalog(catalog) == Some(id)
}

/// The catalog identifiers of the items, each once, in the order in which
/// they first occur. An item without an identifier contributes nothing: it
/// is passed over, which is no error.
pub fn catalog_ids(items: &[Item], catalog: Catalog) -> (ids: StringSet)
    ensures
        ids.order() == first_appearances(listed_ids(items@, catalog)),
{
    let mut ids = StringSet::new();
    let mut i: usize = 0;
    assert(items@.take(0) =~= Seq::<Item>::empty());
    while i < items.len()
        invariant
            i <= items.len(),
            ids.order() == first_appearances(listed_ids(items@.take(i as int), catalog)),
        decreases items.len() - i,
    {
        assert(items@.take(i + 1).drop_last() =~= items@.take(i as int));
        match items[i].catalog_id(catalog) {
            Some(id) => {
                let owned: String = String::from_str(id);
                assert(listed_ids(items@.take(i + 1), catalog).drop_last() =~= listed_ids(
                    items@.take(i as int),
                    catalog,
                ));
                ids.insert(owned);
            },
            None => {},
        }
        i += 1;
    }
    assert(items@.take(i as int) =~= items@);
    ids
}

/// The items that have this identifier in the catalog, in their order.
pub fn items_with_id(items: &[Item], catalog: Catalog, id: &String) -> (found: Vec<Item>)
    ensures
        found@ == items@.filter(with_id(catalog, id@)),
{
    let mut found: Vec<Item> = Vec::new();
    let mut i: usize = 0;
    assert(items@.take(0) =~= Seq::<Item>::empty());
    while i < items.len()
        invariant
            i <= items.len(),
            found@ == items@.take(i as int).filter(with_id(catalog, id@)),
        decreases items.len() - i,
    {
        proof {
            assert(items@.take(i + 1) =~= items@.take(i as int).push(items@[i as int]));
            items@.take(i as int).lemma_filter_push(items@[i as int], with_id(catalog, id@));
        }
        let same: bool = match items[i].catalog_id(catalog) {
            Some(own) => {
                let owned: String = String::from_str(own);
                owned == *id
            },
            None => false,
        };
        if same {
            found.push(items[i].clone());
        }
        i += 1;
    }
    assert(items@.take(i as int) =~= items@);
    found
}

/// The value of the `authorization` header for a key.
pub open spec fn token_value(api_key: Seq<char>) -> Seq<char> {
    "MediaBrowser Token="@ + api_key
}

/// The headers that authorize requests to the tracker.
pub fn auth_headers(api_key: &str) -> (headers: Vec<Header>)
    ensures
        headers@.len() == 1,
        headers@[0].name@ == "authorization"@,
        headers@[0].value@ == token_value(api_key@),
        headers@[0].sensitive,
{
    let mut value: String = String::from_str("MediaBrowser Token=");
    value.append(api_key);
    let mut headers: Vec<Header> = Vec::new();
    headers.push(Header { name: String::from_str("authorization"), value, sensitive: true });
    headers
}

/// The tracker's identifier of a user.
#[derive(Debug, Clone, PartialEq, Eq)]
pub struct UserId(pub String);

impl UserId {
    pub fn as_str(&self) -> (id: &str)
        ensures
            id@ == self.0@,
    {
        self.0.as_str()
    }
}

/// A user of the tracker.
#[derive(Debug, Clone, PartialEq, Eq)]
pub struct User {
    pub id: UserId,
    pub name: String,
}

/// No user has the name that was asked for.
#[derive(Debug, Clone, PartialEq, Eq)]
pub struct UserNotFound {
    pub name: String,
}

impl UserNotFound {
    /// The failure in words.
    pub fn message(&self) -> (text: String)
        ensures
            text@ == "User "@ + self.name@ + " not found"@,
    {
        let mut text: String = String::from_str("User ");
        text.append(self.name.as_str());
        text.append(" not found");
        text
    }
}

/// The position of the first user at or after `from` with this name.
pub open spec fn user_from(users: Seq<User>, name: Seq<char>, from: int) -> Option<int>
    decreases users.len() - from,
{
    if from < 0 || from >= users.len() {
        None
    } else if users[from].name@ == name {
        Some(from)
    } else {
        user_from(users, name, from + 1)
    }
}

/// Finds a user by name, not by id: the first of that name. That there is
/// none is an error.
pub fn find_user(users: Vec<User>, user_name: &str) -> (found: Result<User, UserNotFound>)
    ensures
        match user_from(users@, user_name@, 0) {
            Some(at) => 0 <= at < users@.len() && found == Ok::<User, UserNotFound>(users@[at]),
            None => found matches Err(missing) && missing.name@ == user_name@,
        },
{
    let wanted: String = String::from_str(user_name);
    let ghost all = users@;
    let mut rest: Queue<User> = Queue::new(users);
    let ghost mut at: int = 0;
    while rest.len() > 0
        invariant
            0 <= at <= all.len(),
            all == users@,
            rest@ == all.skip(at),
            wanted@ == user_name@,
            user_from(all, user_name@, 0) == user_from(all, user_name@, at),
        decreases rest@.len(),
    {
        let user: User = rest.next().unwrap();
        assert(user == all[at]);
        if user.name == wanted {
            return Ok(user);
        }
        proof {
            assert(rest@ =~= all.skip(at + 1));
            at = at + 1;
        }
    }
    Err(UserNotFound { name: wanted })
}

/// A list as one query value: its members with commas between them. An
/// empty list is no value at all.
pub open spec fn comma_separated(values: Option<Seq<Seq<char>>>) -> Option<Seq<char>> {
    match values {
        Some(list) => if list.len() > 0 {
            Some(joined(list, ","@))
        } else {
            None
        },
        None => None,
    }
}

/// A list as one query value.
pub fn to_comma_separated(values: &Option<&[&str]>) -> (text: Option<String>)
    ensures
        match comma_separated(texts_of(*values)) {
            Some(expected) => text matches Some(t) && t@ == expected,
            None => text is None,
        },
{
    match values {
        Some(list) => {
            if list.len() > 0 {
                Some(join_strs(list, ","))
            } else {
                None
            }
        },
        None => None,
    }
}

/// The value of a query parameter.
#[derive(Debug, Clone, PartialEq, Eq)]
pub enum QueryValue {
    Text(String),
    Flag(bool),
}

/// A query parameter.
#[derive(Debug, Clone, PartialEq, Eq)]
pub struct QueryParam {
    pub name: String,
    pub value: QueryValue,
}

/// The value of a query parameter in mathematical terms.
pub enum ValueView {
    Text(Seq<char>),
    Flag(bool),
}

/// A query parameter in mathematical terms.
pub struct ParamView {
    pub name: Seq<char>,
    pub value: ValueView,
}

impl View for QueryParam {
    type V = ParamView;

    open spec fn view(&self) -> ParamView {
        ParamView {
            name: self.name@,
            value: match self.value {
                QueryValue::Text(text) => ValueView::Text(text@),
                QueryValue::Flag(flag) => ValueView::Flag(flag),
            },
        }
    }
}

/// Which items a query asks the tracker for.
#[derive(Clone, Copy, Debug)]
pub struct ItemsFilter<'a> {
    fields: Option<&'a [&'a str]>,
    include_item_types: Option<&'a [&'a str]>,
    is_favorite: Option<bool>,
    is_played: Option<bool>,
    recursive: Option<bool>,
    user_id: Option<&'a str>,
    parent_id: Option<&'a str>,
}

/// A filter in mathematical terms.
pub struct FilterView {
    pub fields: Option<Seq<Seq<char>>>,
    pub include_item_types: Option<Seq<Seq<char>>>,
    pub is_favorite: Option<bool>,
    pub is_played: Option<bool>,
    pub recursive: Option<bool>,
    pub user_id: Option<Seq<char>>,
    pub parent_id: Option<Seq<char>>,
}

/// The parameter for a list, where the list gives a value.
pub open spec fn list_param(name: Seq<char>, values: Option<Seq<Seq<char>>>) -> Seq<ParamView> {
    match comma_separated(values) {
        Some(text) => seq![ParamView { name, value: ValueView::Text(text) }],
        None => Seq::empty(),
    }
}

/// The parameter for a flag, where it is set.
pub open spec fn flag_param(name: Seq<char>, flag: Option<bool>) -> Seq<ParamView> {
    match flag {
        Some(b) => seq![ParamView { name, value: ValueView::Flag(b) }],
        None => Seq::empty(),
    }
}

/// The parameter for a text, where there is one.
pub open spec fn text_param(name: Seq<char>, text: Option<Seq<char>>) -> Seq<ParamView> {
    match text {
        Some(t) => seq![ParamView { name, value: ValueView::Text(t) }],
        None => Seq::empty(),
    }
}

/// The query parameters of a filter, in the order in which they are sent.
/// What the filter leaves open is not sent.
pub open spec fn query_of(filter: FilterView) -> Seq<ParamView> {
    list_param("fields"@, filter.fields) + list_param(
        "includeItemTypes"@,
        filter.include_item_types,
    ) + flag_param("isFavorite"@, filter.is_favorite) + flag_param("isPlayed"@, filter.is_played)
        + flag_param("recursive"@, filter.recursive) + text_param("userId"@, filter.user_id)
        + text_param("parentId"@, filter.parent_id)
}

/// The fields that a query for watched items asks for.
pub open spec fn watched_fields() -> Seq<Seq<char>> {
    seq!["ProviderIds"@]
}

impl<'a> View for ItemsFilter<'a> {
    type V = FilterView;

    closed spec fn view(&self) -> FilterView {
        FilterView {
            fields: texts_of(self.fields),
            include_item_types: texts_of(self.include_item_types),
            is_favorite: self.is_favorite,
            is_played: self.is_played,
            recursive: self.recursive,
            user_id: match self.user_id {
                Some(id) => Some(id@),
                None => None,
            },
            parent_id: match self.parent_id {
                Some(id) => Some(id@),
                None => None,
            },
        }
    }
}

impl<'a> ItemsFilter<'a> {
    /// A filter that leaves everything open.
    pub fn new() -> (filter: Self)
        ensures
            filter@ == (FilterView {
                fields: None,
                include_item_types: None,
                is_favorite: None,
                is_played: None,
                recursive: None,
                user_id: None,
                parent_id: None,
            }),
    {
        Self {
            fields: None,
            include_item_types: None,
            is_favorite: None,
            is_played: None,
            recursive: None,
            user_id: None,
            parent_id: None,
        }
    }

    #[must_use]
    pub fn user_id(self, user_id: &'a str) -> (filter: Self)
        ensures
            filter@ == (FilterView { user_id: Some(user_id@), ..self@ }),
    {
        let mut filter = self;
        filter.user_id = Some(user_id);
        filter
    }

    #[must_use]
    pub fn parent_id(self, parent_id: &'a str) -> (filter: Self)
        ensures
            filter@ == (FilterView { parent_id: Some(parent_id@), ..self@ }),
    {
        let mut filter = self;
        filter.parent_id = Some(parent_id);
        filter
    }

    #[must_use]
    pub fn played(self) -> (filter: Self)
        ensures
            filter@ == (FilterView { is_played: Some(true), ..self@ }),
    {
        let mut filter = self;
        filter.is_played = Some(true);
        filter
    }

    #[must_use]
    pub fn recursive(self) -> (filter: Self)
        ensures
            filter@ == (FilterView { recursive: Some(true), ..self@ }),
    {
        let mut filter = self;
        filter.recursive = Some(true);
        filter
    }

    #[must_use]
    pub fn favorite(self, value: bool) -> (filter: Self)
        ensures
            filter@ == (FilterView { is_favorite: Some(value), ..self@ }),
    {
        let mut filter = self;
        filter.is_favorite = Some(value);
        filter
    }

    #[must_use]
    pub fn include_item_types(self, types: &'a [&'a str]) -> (filter: Self)
        ensures
            filter@ == (FilterView {
                include_item_types: Some(types@.map_values(|v: &str| v@)),
                ..self@
            }),
    {
        let mut filter = self;
        filter.include_item_types = Some(types);
        filter
    }

    #[must_use]
    pub fn fields(self, fields: &'a [&'a str]) -> (filter: Self)
        ensures
            filter@ == (FilterView { fields: Some(fields@.map_values(|v: &str| v@)), ..self@ }),
    {
        let mut filter = self;
        filter.fields = Some(fields);
        filter
    }

    /// The filter for what a user has watched to the end: played items at
    /// any depth that are no favorites, with their catalog identifiers.
    pub fn watched() -> (filter: Self)
        ensures
            filter@ == (FilterView {
                fields: Some(watched_fields()),
                include_item_types: None,
                is_favorite: Some(false),
                is_played: Some(true),
                recursive: Some(true),
                user_id: None,
                parent_id: None,
            }),
    {
        let fields: &'static [&'static str] = &["ProviderIds"];
        assert(fields@.map_values(|v: &str| v@) =~= watched_fields());
        Self::new().recursive().played().favorite(false).fields(fields)
    }

    /// The query parameters of the filter, in the order in which they are
    /// sent.
    pub fn query(&self) -> (params: Vec<QueryParam>)
        ensures
            params@.map_values(|p: QueryParam| p@) == query_of(self@),
    {
        let mut params: Vec<QueryParam> = Vec::new();
        assert(params@.map_values(|p: QueryParam| p@) =~= Seq::<ParamView>::empty());
        push_list(&mut params, "fields", &self.fields);
        push_list(&mut params, "includeItemTypes", &self.include_item_types);
        push_flag(&mut params, "isFavorite", self.is_favorite);
        push_flag(&mut params, "isPlayed", self.is_played);
        push_flag(&mut params, "recursive", self.recursive);
        push_text(&mut params, "userId", self.user_id);
        push_text(&mut params, "parentId", self.parent_id);
        assert(params@.map_values(|p: QueryParam| p@) =~= query_of(self@));
        params
    }
}

/// The members of a list of strings as sequences of characters.
pub open spec fn texts_of(values: Option<&[&str]>) -> Option<Seq<Seq<char>>> {
    match values {
        Some(list) => Some(list@.map_values(|v: &str| v@)),
        None => None,
    }
}

fn push_list(params: &mut Vec<QueryParam>, name: &str, values: &Option<&[&str]>)
    ensures
        final(params)@.map_values(|p: QueryParam| p@) == old(params)@.map_values(
            |p: QueryParam| p@,
        ) + list_param(name@, texts_of(*values)),
{
    let ghost before = params@.map_values(|p: QueryParam| p@);
    match to_comma_separated(values) {
        Some(text) => {
            let ghost added = ParamView { name: name@, value: ValueView::Text(text@) };
            params.push(QueryParam { name: String::from_str(name), value: QueryValue::Text(text) });
            assert(params@.map_values(|p: QueryParam| p@) =~= before + seq![added]);
        },
        None => {
            assert(params@.map_values(|p: QueryParam| p@) =~= before + Seq::<ParamView>::empty());
        },
    }
}

fn push_flag(params: &mut Vec<QueryParam>, name: &str, flag: Option<bool>)
    ensures
        final(params)@.map_values(|p: QueryParam| p@) == old(params)@.map_values(
            |p: QueryParam| p@,
        ) + flag_param(name@, flag),
{
    let ghost before = params@.map_values(|p: QueryParam| p@);
    match flag {
        Some(b) => {
            let ghost added = ParamView { name: name@, value: ValueView::Flag(b) };
            params.push(QueryParam { name: String::from_str(name), value: QueryValue::Flag(b) });
            assert(params@.map_values(|p: QueryParam| p@) =~= before + seq![added]);
        },
        None => {
            assert(params@.map_values(|p: QueryParam| p@) =~= before + Seq::<ParamView>::empty());
        },
    }
}

fn push_text(params: &mut Vec<QueryParam>, name: &str, text: Option<&str>)
    ensures
        final(params)@.map_values(|p: QueryParam| p@) == old(params)@.map_values(
            |p: QueryParam| p@,
        ) + text_param(
            name@,
            match text {
                Some(t) => Some(t@),
                None => None,
            },
        ),
{
    let ghost before = params@.map_values(|p: QueryParam| p@);
    match text {
        Some(t) => {
            let ghost added = ParamView { name: name@, value: ValueView::Text(t@) };
            params.push(
                QueryParam { name: String::from_str(name), value: QueryValue::Text(String::from_str(t)) },
            );
            assert(params@.map_values(|p: QueryParam| p@) =~= before + seq![added]);
        },
        None => {
            assert(params@.map_values(|p: QueryParam| p@) =~= before + Seq::<ParamView>::empty());
        },
    }
}

} // verus!
