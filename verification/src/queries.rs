//! The statements sent to the record store for listing and changing
//! courses, and the values bound to their parameters.

use vstd::prelude::*;
use crate::models::course::{difficulty_name, CourseDifficulty, CourseUpdateRequest};
use crate::text::{
    count_to_string, decimal_text, parse_u64, parsed_u64, same_text, text_of, texts_of,
};

verus! {

/// Page size of a listing that asks for none.
pub const DEFAULT_PAGE_SIZE: usize = 20;

/// Largest page size of a listing.
pub const MAX_PAGE_SIZE: usize = 100;

/// What a listing of courses is asked to show.
#[derive(Debug, Clone)]
pub struct CourseListParams {
    pub limit: Option<usize>,
    pub offset: Option<usize>,
    pub category: Option<String>,
    pub difficulty: Option<String>,
    pub query: Option<String>,
    pub include_unpublished: Option<bool>,
}

/// A value bound to a parameter of a statement.
#[derive(Debug, Clone)]
pub struct Binding {
    pub name: String,
    pub value: String,
}

/// Mathematical content of a [`Binding`].
pub struct BindingView {
    pub name: Seq<char>,
    pub value: Seq<char>,
}

impl View for Binding {
    type V = BindingView;

    open spec fn view(&self) -> BindingView {
        BindingView { name: self.name@, value: self.value@ }
    }
}

/// The views of a sequence of bindings, in order.
pub open spec fn binding_views(bindings: Seq<Binding>) -> Seq<BindingView> {
    bindings.map_values(|b: Binding| b@)
}

/// The page size of a listing that asks for `requested`: twenty where it
/// asks for none, and never more than a hundred.
pub open spec fn page_size_of(requested: Option<usize>) -> usize {
    match requested {
        Some(n) => if n > MAX_PAGE_SIZE {
            MAX_PAGE_SIZE
        } else {
            n
        },
        None => DEFAULT_PAGE_SIZE,
    }
}

/// The page size of a listing.
pub fn page_size(requested: Option<usize>) -> (r: usize)
    ensures
        r == page_size_of(requested),
        r <= MAX_PAGE_SIZE,
{
    match requested {
        Some(n) => if n > MAX_PAGE_SIZE {
            MAX_PAGE_SIZE
        } else {
            n
        },
        None => DEFAULT_PAGE_SIZE,
    }
}

/// Where a listing starts: at the offset asked for, or at the first
/// course.
pub fn page_offset(requested: Option<usize>) -> (r: usize)
    ensures
        r == match requested {
            Some(n) => n,
            None => 0,
        },
{
    match requested {
        Some(n) => n,
        None => 0,
    }
}

/// Whether a listing shows unpublished courses: only where it asks for
/// them and its caller is an admin or an educator.
pub open spec fn shows_unpublished(requested: Option<bool>, role: Seq<char>) -> bool {
    requested == Some(true) && (role == "admin"@ || role == "educator"@)
}

/// Whether a listing shows unpublished courses.
pub fn includes_unpublished(requested: Option<bool>, role: &str) -> (r: bool)
    ensures
        r == shows_unpublished(requested, role@),
{
    let asked = match requested {
        Some(flag) => flag,
        None => false,
    };
    asked && (same_text(role, "admin") || same_text(role, "educator"))
}

/// `parts`, written one after the other with `separator` between each two.
pub open spec fn joined(parts: Seq<Seq<char>>, separator: Seq<char>) -> Seq<char>
    decreases parts.len(),
{
    if parts.len() == 0 {
        Seq::empty()
    } else if parts.len() == 1 {
        parts[0]
    } else {
        joined(parts.drop_last(), separator) + separator + parts.last()
    }
}

/// Joins texts with a separator between each two.
pub fn join(parts: &Vec<String>, separator: &str) -> (r: String)
    ensures
        r@ == joined(texts_of(parts@), separator@),
{
    let ghost texts = texts_of(parts@);
    let mut out = String::new();
    let mut i: usize = 0;
    while i < parts.len()
        invariant
            i <= parts.len(),
            texts == texts_of(parts@),
            out@ == joined(texts.take(i as int), separator@),
        decreases parts.len() - i,
    {
        proof {
            assert(texts.take(i + 1).drop_last() =~= texts.take(i as int));
            assert(texts.take(i + 1).last() == parts@[i as int]@);
            if i == 0 {
                assert(texts.take(1)[0] == parts@[0]@);
                assert(out@ =~= Seq::<char>::empty());
            }
        }
        if i > 0 {
            out.append(separator);
        }
        out.append(parts[i].as_str());
        proof {
            if i == 0 {
                assert(out@ =~= parts@[0]@);
            }
        }
        i = i + 1;
    }
    proof {
        assert(texts.take(i as int) =~= texts);
    }
    out
}

/// The conditions of a listing, in the order they are written: published
/// courses only, unless unpublished ones are shown; then the filters on
/// category, difficulty and text that the listing names.
pub open spec fn list_conditions(
    unpublished: bool,
    category: bool,
    difficulty: bool,
    query: bool,
) -> Seq<Seq<char>> {
    (if unpublished {
        Seq::<Seq<char>>::empty()
    } else {
        seq!["is_published = true"@]
    }) + (if category {
        seq!["category = $category"@]
    } else {
        Seq::<Seq<char>>::empty()
    }) + (if difficulty {
        seq!["difficulty = $difficulty"@]
    } else {
        Seq::<Seq<char>>::empty()
    }) + (if query {
        seq!["(title CONTAINS $query OR description CONTAINS $query)"@]
    } else {
        Seq::<Seq<char>>::empty()
    })
}

/// The conditions of the listing that `params` asks for.
pub fn conditions(params: &CourseListParams, unpublished: bool) -> (r: Vec<String>)
    ensures
        texts_of(r@) == list_conditions(
            unpublished,
            params.category is Some,
            params.difficulty is Some,
            params.query is Some,
        ),
{
    let mut out: Vec<String> = Vec::new();
    if !unpublished {
        out.push("is_published = true".to_string());
    }
    if params.category.is_some() {
        out.push("category = $category".to_string());
    }
    if params.difficulty.is_some() {
        out.push("difficulty = $difficulty".to_string());
    }
    if params.query.is_some() {
        out.push("(title CONTAINS $query OR description CONTAINS $query)".to_string());
    }
    proof {
        assert(texts_of(out@) =~= list_conditions(
            unpublished,
            params.category is Some,
            params.difficulty is Some,
            params.query is Some,
        ));
    }
    out
}

/// The `WHERE` clause of `conditions`: nothing where there are none.
pub open spec fn where_clause(conditions: Seq<Seq<char>>) -> Seq<char> {
    if conditions.len() == 0 {
        Seq::empty()
    } else {
        " WHERE "@ + joined(conditions, " AND "@)
    }
}

/// The statement that lists courses under `conditions`, newest first, one
/// page at a time.
pub fn list_statement(conditions: &Vec<String>) -> (r: String)
    ensures
        r@ == "SELECT * FROM course"@ + where_clause(texts_of(conditions@))
            + " ORDER BY created_at DESC LIMIT $limit OFFSET $offset"@,
{
    let mut text = "SELECT * FROM course".to_string();
    if conditions.len() > 0 {
        text.append(" WHERE ");
        text.append(join(conditions, " AND ").as_str());
    }
    text.append(" ORDER BY created_at DESC LIMIT $limit OFFSET $offset");
    proof {
        assert(texts_of(conditions@).len() == conditions@.len());
        assert(text@ =~= "SELECT * FROM course"@ + where_clause(texts_of(conditions@))
            + " ORDER BY created_at DESC LIMIT $limit OFFSET $offset"@);
    }
    text
}

/// The statement that counts the courses under `conditions`.
pub fn count_statement(conditions: &Vec<String>) -> (r: String)
    ensures
        r@ == "SELECT count() FROM course"@ + where_clause(texts_of(conditions@)),
{
    let mut text = "SELECT count() FROM course".to_string();
    if conditions.len() > 0 {
        text.append(" WHERE ");
        text.append(join(conditions, " AND ").as_str());
    }
    proof {
        assert(texts_of(conditions@).len() == conditions@.len());
        assert(text@ =~= "SELECT count() FROM course"@ + where_clause(texts_of(conditions@)));
    }
    text
}

/// A binding of `value` to `name`, where there is a value.
pub open spec fn optional_binding(name: Seq<char>, value: Option<Seq<char>>) -> Seq<BindingView> {
    match value {
        Some(v) => seq![BindingView { name, value: v }],
        None => Seq::empty(),
    }
}

/// The values bound for the filters of a listing, in the order of its
/// conditions.
pub open spec fn filter_bindings_of(
    category: Option<Seq<char>>,
    difficulty: Option<Seq<char>>,
    query: Option<Seq<char>>,
) -> Seq<BindingView> {
    optional_binding("category"@, category) + optional_binding("difficulty"@, difficulty)
        + optional_binding("query"@, query)
}

/// The values bound for a listing: the filters it names, then the page
/// size and the offset in decimal.
pub open spec fn list_bindings_of(
    category: Option<Seq<char>>,
    difficulty: Option<Seq<char>>,
    query: Option<Seq<char>>,
    limit: usize,
    offset: usize,
) -> Seq<BindingView> {
    filter_bindings_of(category, difficulty, query) + seq![
        BindingView { name: "limit"@, value: decimal_text(limit as nat) },
        BindingView { name: "offset"@, value: decimal_text(offset as nat) },
    ]
}

fn push_optional(out: &mut Vec<Binding>, name: &str, value: &Option<String>)
    ensures
        binding_views(final(out)@) == binding_views(old(out)@) + optional_binding(
            name@,
            text_of(*value),
        ),
{
    match value {
        Some(v) => {
            out.push(Binding { name: name.to_string(), value: v.clone() });
        },
        None => {},
    }
    proof {
        assert(binding_views(out@) =~= binding_views(old(out)@) + optional_binding(
            name@,
            text_of(*value),
        ));
    }
}

/// The values bound for the filters that `params` names. These are all
/// that the statement counting the courses takes: it has no page.
pub fn filter_bindings(params: &CourseListParams) -> (r: Vec<Binding>)
    ensures
        binding_views(r@) == filter_bindings_of(
            text_of(params.category),
            text_of(params.difficulty),
            text_of(params.query),
        ),
{
    let mut out: Vec<Binding> = Vec::new();
    proof {
        assert(binding_views(out@) =~= Seq::<BindingView>::empty());
    }
    push_optional(&mut out, "category", &params.category);
    push_optional(&mut out, "difficulty", &params.difficulty);
    push_optional(&mut out, "query", &params.query);
    proof {
        assert(binding_views(out@) =~= filter_bindings_of(
            text_of(params.category),
            text_of(params.difficulty),
            text_of(params.query),
        ));
    }
    out
}

/// The values bound for the listing that `params` asks for.
pub fn list_bindings(params: &CourseListParams) -> (r: Vec<Binding>)
    ensures
        binding_views(r@) == list_bindings_of(
            text_of(params.category),
            text_of(params.difficulty),
            text_of(params.query),
            page_size_of(params.limit),
            match params.offset {
                Some(n) => n,
                None => 0,
            },
        ),
{
    let mut out = filter_bindings(params);
    let ghost filters = binding_views(out@);
    out.push(Binding { name: "limit".to_string(), value: count_to_string(page_size(params.limit)) });
    out.push(
        Binding { name: "offset".to_string(), value: count_to_string(page_offset(params.offset)) },
    );
    proof {
        assert(binding_views(out@) =~= filters + seq![
            BindingView { name: "limit"@, value: decimal_text(page_size_of(params.limit) as nat) },
            BindingView {
                name: "offset"@,
                value: decimal_text(
                    (match params.offset {
                        Some(n) => n,
                        None => 0,
                    }) as nat,
                ),
            },
        ]);
    }
    out
}

/// The count that a parameter writes, if it writes one that fits.
pub open spec fn parsed_count(value: Option<Seq<char>>) -> Option<usize> {
    match value {
        Some(text) => match parsed_u64(text) {
            Some(n) => if n <= usize::MAX {
                Some(n as usize)
            } else {
                None
            },
            None => None,
        },
        None => None,
    }
}

/// The flag that a parameter writes: `true` or `false`, and nothing else.
pub open spec fn parsed_flag(value: Option<Seq<char>>) -> Option<bool> {
    match value {
        Some(text) => if text == "true"@ {
            Some(true)
        } else if text == "false"@ {
            Some(false)
        } else {
            None
        },
        None => None,
    }
}

/// View of an optional slice of text.
pub open spec fn slice_text(value: Option<&str>) -> Option<Seq<char>> {
    match value {
        Some(text) => Some(text@),
        None => None,
    }
}

fn read_count(value: Option<&str>) -> (r: Option<usize>)
    ensures
        r == parsed_count(slice_text(value)),
{
    match value {
        Some(text) => match parse_u64(text) {
            Some(n) => if n <= usize::MAX as u64 {
                Some(n as usize)
            } else {
                None
            },
            None => None,
        },
        None => None,
    }
}

fn read_flag(value: Option<&str>) -> (r: Option<bool>)
    ensures
        r == parsed_flag(slice_text(value)),
{
    match value {
        Some(text) => if same_text(text, "true") {
            Some(true)
        } else if same_text(text, "false") {
            Some(false)
        } else {
            None
        },
        None => None,
    }
}

fn read_text(value: Option<&str>) -> (r: Option<String>)
    ensures
        text_of(r) == slice_text(value),
{
    match value {
        Some(text) => Some(text.to_string()),
        None => None,
    }
}

/// Reads what a listing asks for from the parameters of its query. A
/// count or a flag that does not read as one counts as absent.
pub fn read_list_params(
    limit: Option<&str>,
    offset: Option<&str>,
    category: Option<&str>,
    difficulty: Option<&str>,
    query: Option<&str>,
    include_unpublished: Option<&str>,
) -> (r: CourseListParams)
    ensures
        r.limit == parsed_count(slice_text(limit)),
        r.offset == parsed_count(slice_text(offset)),
        text_of(r.category) == slice_text(category),
        text_of(r.difficulty) == slice_text(difficulty),
        text_of(r.query) == slice_text(query),
        r.include_unpublished == parsed_flag(slice_text(include_unpublished)),
{
    CourseListParams {
        limit: read_count(limit),
        offset: read_count(offset),
        category: read_text(category),
        difficulty: read_text(difficulty),
        query: read_text(query),
        include_unpublished: read_flag(include_unpublished),
    }
}

/// The assignment of a field that a change names.
pub open spec fn optional_clause(present: bool, clause: Seq<char>) -> Seq<Seq<char>> {
    if present {
        seq![clause]
    } else {
        Seq::empty()
    }
}

/// The assignments of a change to a course, in the order they are
/// written: one for each field that the change names, then the stamp and
/// the author of the change, which are always set.
pub open spec fn update_clauses(
    title: bool,
    description: bool,
    category: bool,
    difficulty: bool,
    is_published: bool,
    thumbnail_url: bool,
    modules: bool,
    tags: bool,
) -> Seq<Seq<char>> {
    optional_clause(title, "title = $title"@) + optional_clause(
        description,
        "description = $description"@,
    ) + optional_clause(category, "category = $category"@) + optional_clause(
        difficulty,
        "difficulty = $difficulty"@,
    ) + optional_clause(is_published, "is_published = $is_published"@) + optional_clause(
        thumbnail_url,
        "thumbnail_url = $thumbnail_url"@,
    ) + optional_clause(modules, "modules = $modules"@) + optional_clause(tags, "tags = $tags"@)
        + seq!["updated_at = time::now()"@, "updated_by = $updated_by"@]
}

fn push_clause(out: &mut Vec<String>, present: bool, clause: &str)
    ensures
        texts_of(final(out)@) == texts_of(old(out)@) + optional_clause(present, clause@),
{
    if present {
        out.push(clause.to_string());
    }
    proof {
        assert(texts_of(out@) =~= texts_of(old(out)@) + optional_clause(present, clause@));
    }
}

/// The assignments of the change that `request` asks for.
pub fn set_clauses(request: &CourseUpdateRequest) -> (r: Vec<String>)
    ensures
        texts_of(r@) == update_clauses(
            request.title is Some,
            request.description is Some,
            request.category is Some,
            request.difficulty is Some,
            request.is_published is Some,
            request.thumbnail_url is Some,
            request.modules is Some,
            request.tags is Some,
        ),
        r@.len() >= 2,
{
    let mut out: Vec<String> = Vec::new();
    proof {
        assert(texts_of(out@) =~= Seq::<Seq<char>>::empty());
    }
    push_clause(&mut out, request.title.is_some(), "title = $title");
    push_clause(&mut out, request.description.is_some(), "description = $description");
    push_clause(&mut out, request.category.is_some(), "category = $category");
    push_clause(&mut out, request.difficulty.is_some(), "difficulty = $difficulty");
    push_clause(&mut out, request.is_published.is_some(), "is_published = $is_published");
    push_clause(&mut out, request.thumbnail_url.is_some(), "thumbnail_url = $thumbnail_url");
    push_clause(&mut out, request.modules.is_some(), "modules = $modules");
    push_clause(&mut out, request.tags.is_some(), "tags = $tags");
    push_clause(&mut out, true, "updated_at = time::now()");
    push_clause(&mut out, true, "updated_by = $updated_by");
    proof {
        assert(texts_of(out@) =~= update_clauses(
            request.title is Some,
            request.description is Some,
            request.category is Some,
            request.difficulty is Some,
            request.is_published is Some,
            request.thumbnail_url is Some,
            request.modules is Some,
            request.tags is Some,
        ));
        assert(texts_of(out@).len() == out@.len());
    }
    out
}

/// The statement that changes a course by `clauses` and hands back what
/// it then is.
pub fn update_statement(clauses: &Vec<String>) -> (r: String)
    ensures
        r@ == "UPDATE course SET "@ + joined(texts_of(clauses@), ", "@)
            + " WHERE id = $id RETURN AFTER"@,
{
    let mut text = "UPDATE course SET ".to_string();
    text.append(join(clauses, ", ").as_str());
    text.append(" WHERE id = $id RETURN AFTER");
    text
}

/// How a flag is written where it is bound.
pub open spec fn flag_text(flag: bool) -> Seq<char> {
    if flag {
        "true"@
    } else {
        "false"@
    }
}

/// How a flag is written where it is bound.
pub fn flag_to_string(flag: bool) -> (r: String)
    ensures
        r@ == flag_text(flag),
{
    if flag {
        "true".to_string()
    } else {
        "false".to_string()
    }
}

/// The JSON text that `serde_json` writes for an array of the texts
/// `items`.
pub uninterp spec fn json_array_text(items: Seq<Seq<char>>) -> Seq<char>;

/// `serde_json::to_string` on a list of texts: the list as a JSON array of
/// strings. Where the serializer reports an error, the text is empty.
#[verifier::external_body]
fn texts_to_json(items: &Vec<String>) -> (r: String)
    ensures
        r@ == json_array_text(texts_of(items@)),
{
    serde_json::to_string(items).unwrap_or_default()
}

/// The JSON text of an optional list of texts.
pub open spec fn optional_json(items: Option<Vec<String>>) -> Option<Seq<char>> {
    match items {
        Some(list) => Some(json_array_text(texts_of(list@))),
        None => None,
    }
}

/// The name of an optional difficulty.
pub open spec fn optional_difficulty(difficulty: Option<CourseDifficulty>) -> Option<Seq<char>> {
    match difficulty {
        Some(d) => Some(difficulty_name(d)),
        None => None,
    }
}

/// How an optional flag is written.
pub open spec fn optional_flag(flag: Option<bool>) -> Option<Seq<char>> {
    match flag {
        Some(f) => Some(flag_text(f)),
        None => None,
    }
}

/// The values bound for a change to a course: one for each field that the
/// change names, in the order of the assignments, then its author.
pub open spec fn update_bindings_of(request: CourseUpdateRequest, updated_by: Seq<char>) -> Seq<
    BindingView,
> {
    optional_binding("title"@, text_of(request.title)) + optional_binding(
        "description"@,
        text_of(request.description),
    ) + optional_binding("category"@, text_of(request.category)) + optional_binding(
        "difficulty"@,
        optional_difficulty(request.difficulty),
    ) + optional_binding("is_published"@, optional_flag(request.is_published)) + optional_binding(
        "thumbnail_url"@,
        text_of(request.thumbnail_url),
    ) + optional_binding("modules"@, optional_json(request.modules)) + optional_binding(
        "tags"@,
        optional_json(request.tags),
    ) + seq![BindingView { name: "updated_by"@, value: updated_by }]
}

/// The values bound for the change that `request` asks for, made by
/// `updated_by`.
pub fn update_bindings(request: &CourseUpdateRequest, updated_by: &str) -> (r: Vec<Binding>)
    ensures
        binding_views(r@) == update_bindings_of(*request, updated_by@),
{
    let mut out: Vec<Binding> = Vec::new();
    proof {
        assert(binding_views(out@) =~= Seq::<BindingView>::empty());
    }
    push_optional(&mut out, "title", &request.title);
    push_optional(&mut out, "description", &request.description);
    push_optional(&mut out, "category", &request.category);
    let difficulty = match &request.difficulty {
        Some(d) => Some(d.to_string()),
        None => None,
    };
    push_optional(&mut out, "difficulty", &difficulty);
    let is_published = match request.is_published {
        Some(f) => Some(flag_to_string(f)),
        None => None,
    };
    push_optional(&mut out, "is_published", &is_published);
    push_optional(&mut out, "thumbnail_url", &request.thumbnail_url);
    let modules = match &request.modules {
        Some(list) => Some(texts_to_json(list)),
        None => None,
    };
    push_optional(&mut out, "modules", &modules);
    let tags = match &request.tags {
        Some(list) => Some(texts_to_json(list)),
        None => None,
    };
    push_optional(&mut out, "tags", &tags);
    out.push(Binding { name: "updated_by".to_string(), value: updated_by.to_string() });
    proof {
        assert(binding_views(out@) =~= update_bindings_of(*request, updated_by@));
    }
    out
}

} // verus!
