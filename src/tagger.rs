//! Merchant classification: a stored tag wins; otherwise ordered name rules
//! decide, and the caller is told what to persist.

use vstd::prelude::*;
use crate::model::{Category, category_of_tag, category_tag};
use crate::text::{contains, has_substring};

verus! {

/// Name fragments of campus cafeterias, checked first.
pub open spec fn cafeteria_fragments() -> Seq<Seq<char>> {
    seq![
        "百惠"@, "百景"@, "集锦"@, "东一"@, "东二"@, "东三"@, "学一"@, "学二"@, "喻园"@, "食堂"@,
        "紫荆园"@, "西一"@, "西二"@, "东园"@,
    ]
}

/// Name fragments of grocery shops.
pub open spec fn grocery_fragments() -> Seq<Seq<char>> {
    seq!["超市"@, "商店"@]
}

pub open spec fn mentions_any(name: Seq<char>, fragments: Seq<Seq<char>>) -> bool {
    exists|i: int| 0 <= i < fragments.len() && has_substring(name, #[trigger] fragments[i])
}

/// The category that the name rules give: cafeteria fragments first, then
/// grocery fragments, else other.
pub open spec fn rule_category(name: Seq<char>) -> Category {
    if mentions_any(name, cafeteria_fragments()) {
        Category::Cafeteria
    } else if mentions_any(name, grocery_fragments()) {
        Category::Groceries
    } else {
        Category::Other
    }
}

/// What the caller must persist after a classification.
#[derive(Clone, Copy, Debug, PartialEq, Eq, Structural)]
pub enum TagAction {
    /// The stored tag was used; nothing to write.
    Keep,
    /// Store this category's tag for the merchant account.
    Store(Category),
    /// Record the merchant account and its name for manual review.
    RecordUntagged,
}

/// The outcome of classifying one merchant.
#[derive(Clone, Copy, Debug, PartialEq, Eq, Structural)]
pub struct Resolution {
    pub category: Category,
    pub action: TagAction,
}

/// A stored tag that names a category wins. Otherwise the rules decide; a
/// cafeteria or grocery result is to be stored, and a fall-through to other
/// is to be recorded as untagged.
pub open spec fn resolution(stored: Option<Seq<char>>, name: Seq<char>) -> Resolution {
    match stored {
        Some(s) if category_of_tag(s) is Some => Resolution {
            category: category_of_tag(s)->Some_0,
            action: TagAction::Keep,
        },
        _ => {
            let c = rule_category(name);
            Resolution {
                category: c,
                action: if c == Category::Other {
                    TagAction::RecordUntagged
                } else {
                    TagAction::Store(c)
                },
            }
        },
    }
}

fn mentions_any_of(name: &str, fragments: &Vec<&str>) -> (r: bool)
    ensures
        r == exists|i: int| 0 <= i < fragments@.len() && has_substring(name@, #[trigger] fragments@[i]@),
{
    let mut i: usize = 0;
    while i < fragments.len()
        invariant
            i <= fragments@.len(),
            forall|k: int| 0 <= k < i ==> !has_substring(name@, #[trigger] fragments@[k]@),
        decreases fragments@.len() - i,
    {
        if contains(name, fragments[i]) {
            return true;
        }
        i = i + 1;
    }
    false
}

/// Classifies a merchant by its name alone.
pub fn classify_name(name: &str) -> (r: Category)
    ensures
        r == rule_category(name@),
{
    let caf: Vec<&str> = vec![
        "百惠", "百景", "集锦", "东一", "东二", "东三", "学一", "学二", "喻园", "食堂", "紫荆园", "西一", "西二", "东园",
    ];
    let gro: Vec<&str> = vec!["超市", "商店"];
    let in_caf = mentions_any_of(name, &caf);
    proof {
        assert(caf@.map_values(|s: &str| s@) =~= cafeteria_fragments());
    }
    if in_caf {
        return Category::Cafeteria;
    }
    let in_gro = mentions_any_of(name, &gro);
    proof {
        assert(gro@.map_values(|s: &str| s@) =~= grocery_fragments());
    }
    if in_gro {
        Category::Groceries
    } else {
        Category::Other
    }
}

/// Classifies a merchant given what the tag store holds for its account.
pub fn resolve_tag(stored: Option<&str>, name: &str) -> (r: Resolution)
    ensures
        r == resolution(
            match stored {
                Some(s) => Some(s@),
                None => None,
            },
            name@,
        ),
{
    if let Some(s) = stored {
        if let Some(c) = Category::from_tag(s) {
            return Resolution { category: c, action: TagAction::Keep };
        }
    }
    let c = classify_name(name);
    let action = match c {
        Category::Other => TagAction::RecordUntagged,
        _ => TagAction::Store(c),
    };
    Resolution { category: c, action }
}

/// Once a classification has been stored, classifying the same merchant
/// again gives the same category and writes nothing.
pub proof fn law_stored_tag_is_stable(stored: Option<Seq<char>>, name: Seq<char>)
    ensures
        resolution(stored, name).action matches TagAction::Store(c) ==> resolution(
            Some(category_tag(c)),
            name,
        ) == (Resolution { category: c, action: TagAction::Keep }),
{
    if let TagAction::Store(c) = resolution(stored, name).action {
        reveal_strlit("CAF");
        reveal_strlit("GRO");
        reveal_strlit("LOG");
        reveal_strlit("OTH");
        assert("CAF"@[0] == 'C' && "GRO"@[0] == 'G' && "LOG"@[0] == 'L' && "OTH"@[0] == 'O');
        assert(category_of_tag(category_tag(c)) == Some(c));
    }
}

} // verus!
