//! The vanity redirects that are compiled into the service.

use vstd::prelude::*;
use vstd::string::*;
use crate::slug::{alphabet, is_slug};
use crate::text::same_text;

verus! {

/// The compiled-in table: the URL that a vanity slug stands for, if it is one.
pub open spec fn hardcoded_url(slug: Seq<char>) -> Option<Seq<char>> {
    if slug == "tiktok"@ {
        Some("https://tiktok.com/@really_yuto"@)
    } else if slug == "twitter"@ {
        Some("https://twitter.com/really_yuto"@)
    } else if slug == "instagram"@ || slug == "ig"@ {
        Some("https://instagram.com/really_yuto/"@)
    } else if slug == "linkedin"@ {
        Some("https://linkedin.com/in/yuton/"@)
    } else if slug == "facebook"@ || slug == "fb"@ {
        Some("https://facebook.com/yuto314/"@)
    } else {
        None
    }
}

/// Looks a slug up in the compiled-in table. The match is exact and
/// case-sensitive.
pub fn check_hardcoded_slug(slug: &str) -> (url: Option<String>)
    ensures
        url.is_some() == hardcoded_url(slug@).is_some(),
        url matches Some(u) ==> hardcoded_url(slug@) == Some(u@),
{
    if same_text(slug, "tiktok") {
        Some("https://tiktok.com/@really_yuto".to_owned())
    } else if same_text(slug, "twitter") {
        Some("https://twitter.com/really_yuto".to_owned())
    } else if same_text(slug, "instagram") || same_text(slug, "ig") {
        Some("https://instagram.com/really_yuto/".to_owned())
    } else if same_text(slug, "linkedin") {
        Some("https://linkedin.com/in/yuton/".to_owned())
    } else if same_text(slug, "facebook") || same_text(slug, "fb") {
        Some("https://facebook.com/yuto314/".to_owned())
    } else {
        None
    }
}

/// No generated slug collides with a vanity slug: the only vanity slug of six
/// symbols holds letters that the alphabet leaves out.
pub proof fn lemma_slug_is_not_hardcoded(slug: Seq<char>)
    requires
        is_slug(slug),
    ensures
        hardcoded_url(slug) is None,
{
    reveal_strlit("tiktok");
    reveal_strlit("twitter");
    reveal_strlit("instagram");
    reveal_strlit("ig");
    reveal_strlit("linkedin");
    reveal_strlit("facebook");
    reveal_strlit("fb");
    reveal_strlit("0123456789abcdefghjkmnpqrstuvwxyz");
    if slug == "tiktok"@ {
        assert(slug[1] == 'i');
        assert(alphabet().contains(slug[1]));
        let k = choose|k: int| 0 <= k < alphabet().len() && alphabet()[k] == 'i';
        assert(false);
    }
}

} // verus!
