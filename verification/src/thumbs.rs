//! Where a video's thumbnail is looked for.
use vstd::prelude::*;
use crate::yt::texts;

verus! {

broadcast use vstd::string::group_string_axioms;

/// The addresses a thumbnail is tried at, in order: the given address
/// (when there is one), then the large, high and medium pictures of the
/// video `id` (when it has an id).
pub open spec fn image_url_list(url: Seq<char>, id: Seq<char>) -> Seq<Seq<char>> {
    let given: Seq<Seq<char>> = if url.len() > 0 { seq![url] } else { Seq::empty() };
    let by_id: Seq<Seq<char>> = if id.len() > 0 {
        seq![
            "https://i.ytimg.com/vi/"@ + id + "/maxresdefault.jpg"@,
            "https://i.ytimg.com/vi/"@ + id + "/hqdefault.jpg"@,
            "https://i.ytimg.com/vi/"@ + id + "/mqdefault.jpg"@,
        ]
    } else {
        Seq::empty()
    };
    given + by_id
}

fn picture_url(id: &str, name: &str) -> (r: String)
    ensures
        r@ == "https://i.ytimg.com/vi/"@ + id@ + "/"@ + name@,
{
    let mut r = String::from_str("https://i.ytimg.com/vi/");
    r.append(id);
    r.append("/");
    r.append(name);
    r
}

/// The addresses to try for the thumbnail (see `image_url_list`).
pub fn image_urls(url: &str, video_id: &str) -> (r: Vec<String>)
    ensures
        texts(r@) == image_url_list(url@, video_id@),
{
    let mut r: Vec<String> = Vec::new();
    if !url.is_empty() {
        r.push(String::from_str(url));
    }
    let ghost given = texts(r@);
    assert(given =~= (if url@.len() > 0 { seq![url@] } else { Seq::<Seq<char>>::empty() }));
    if !video_id.is_empty() {
        let a = picture_url(video_id, "maxresdefault.jpg");
        let b = picture_url(video_id, "hqdefault.jpg");
        let c = picture_url(video_id, "mqdefault.jpg");
        proof {
            reveal_strlit("/");
            reveal_strlit("maxresdefault.jpg");
            reveal_strlit("hqdefault.jpg");
            reveal_strlit("mqdefault.jpg");
            reveal_strlit("/maxresdefault.jpg");
            reveal_strlit("/hqdefault.jpg");
            reveal_strlit("/mqdefault.jpg");
            assert(a@ =~= "https://i.ytimg.com/vi/"@ + video_id@ + "/maxresdefault.jpg"@);
            assert(b@ =~= "https://i.ytimg.com/vi/"@ + video_id@ + "/hqdefault.jpg"@);
            assert(c@ =~= "https://i.ytimg.com/vi/"@ + video_id@ + "/mqdefault.jpg"@);
        }
        r.push(a);
        r.push(b);
        r.push(c);
    }
    assert(texts(r@) =~= image_url_list(url@, video_id@));
    r
}

} // verus!
