use vstd::prelude::*;

use crate::api_response::ApiResponse;

verus! {

/// Characters of an article's content carried as the snippet in the
/// notification email.
pub const SNIPPET_CHARS: usize = 50;

/// What a caller submits to create an article.
#[derive(Debug)]
pub struct CreateArticleModel {
    pub title: String,
    pub content: String,
}

/// An author's public fields, as a single-article answer joins them in.
#[derive(Debug)]
pub struct UserModel {
    pub name: String,
    pub email: String,
}

/// An article row, as the listing decisions read it: the identifier
/// fields as plain values — the uuid as its hyphenated text, the creation
/// time as seconds and nanoseconds since the Unix epoch.
#[derive(Debug)]
pub struct ArticleRecord {
    pub id: i32,
    pub title: String,
    pub content: String,
    pub uuid: String,
    pub user_id: i32,
    pub created_at_secs: i64,
    pub created_at_nanos: u32,
    pub image: Option<String>,
}

/// An article as the listings answer it, with the author's public fields
/// where the lookup joined them.
#[derive(Debug)]
pub struct ArticleModel {
    pub id: i32,
    pub title: String,
    pub content: String,
    pub uuid: String,
    pub user_id: i32,
    pub created_at_secs: i64,
    pub created_at_nanos: u32,
    pub image: Option<String>,
    pub user: Option<UserModel>,
}

/// The answer row carries exactly the record's fields.
pub open spec fn article_fields_match(m: ArticleModel, a: ArticleRecord) -> bool {
    &&& m.id == a.id
    &&& m.title@ == a.title@
    &&& m.content@ == a.content@
    &&& m.uuid@ == a.uuid@
    &&& m.user_id == a.user_id
    &&& m.created_at_secs == a.created_at_secs
    &&& m.created_at_nanos == a.created_at_nanos
    &&& match a.image {
        Some(im) => m.image matches Some(out) && out@ == im@,
        None => m.image is None,
    }
}

/// Whether article creation should notify the author's subscribers, from
/// the optional `send_email` query value: only the literal `true` says
/// yes, any other value says no, and absence defaults to yes.
pub fn send_email_flag(value: Option<&String>) -> (r: bool)
    ensures
        match value {
            Some(v) => r == (v@ == "true"@),
            None => r == true,
        },
{
    match value {
        Some(v) => {
            let t = "true".to_owned();
            *v == t
        },
        None => true,
    }
}

/// The leading snippet of an article's content for the notification
/// email: the whole content when it is short, else its first
/// `SNIPPET_CHARS` characters; no content is too short to notify about.
pub fn article_snippet(content: &str) -> (r: String)
    ensures
        r@ == if content@.len() <= SNIPPET_CHARS {
            content@
        } else {
            content@.subrange(0, SNIPPET_CHARS as int)
        },
{
    let n = content.unicode_len();
    if n <= SNIPPET_CHARS {
        content.to_owned()
    } else {
        content.substring_char(0, SNIPPET_CHARS).to_owned()
    }
}

/// Turn stored article rows into the rows a listing answers: every row,
/// in order, with its fields unchanged and no author joined in.
#[verifier::loop_isolation(false)]
pub fn list_articles(articles: &Vec<ArticleRecord>) -> (r: Vec<ArticleModel>)
    ensures
        r@.len() == articles@.len(),
        forall|k: int|
            0 <= k < articles@.len() ==> {
                &&& article_fields_match(#[trigger] r@[k], articles@[k])
                &&& r@[k].user is None
            },
{
    let n = articles.len();
    let mut r: Vec<ArticleModel> = Vec::new();
    let mut i: usize = 0;
    while i < n
        invariant
            i <= n,
            r@.len() == i,
            forall|k: int|
                0 <= k < i ==> {
                    &&& article_fields_match(#[trigger] r@[k], articles@[k])
                    &&& r@[k].user is None
                },
        decreases n - i,
    {
        let a = &articles[i];
        let image = match &a.image {
            Some(im) => Some(im.clone()),
            None => None,
        };
        r.push(
            ArticleModel {
                id: a.id,
                title: a.title.clone(),
                content: a.content.clone(),
                uuid: a.uuid.clone(),
                user_id: a.user_id,
                created_at_secs: a.created_at_secs,
                created_at_nanos: a.created_at_nanos,
                image,
                user: None,
            },
        );
        i = i + 1;
    }
    r
}

/// The outcome of looking one article up by its uuid: the row with its
/// author's public fields where the join found them, or the not-found
/// answer. The row, if any, is the store's answer, handed in by the
/// caller.
pub fn one_article_gate(found: Option<(ArticleRecord, Option<UserModel>)>) -> (r: Result<
    ArticleModel,
    ApiResponse,
>)
    ensures
        match found {
            None => r matches Err(e) && e.status_code == 404 && e.body@ == "No article Found"@,
            Some(row) => r matches Ok(m) && article_fields_match(m, row.0) && (match row.1 {
                Some(u) => m.user matches Some(mu) && mu.name@ == u.name@ && mu.email@ == u.email@,
                None => m.user is None,
            }),
        },
{
    match found {
        None => Err(ApiResponse::new(404, "No article Found".to_owned())),
        Some((a, user)) => Ok(
            ArticleModel {
                id: a.id,
                title: a.title,
                content: a.content,
                uuid: a.uuid,
                user_id: a.user_id,
                created_at_secs: a.created_at_secs,
                created_at_nanos: a.created_at_nanos,
                image: a.image,
                user,
            },
        ),
    }
}

} // verus!
