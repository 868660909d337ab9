use crate::text::{contains_entry, str_eq, string_views};
use std::collections::{HashMap, HashSet};
use vstd::prelude::*;

verus! {

/// The classes that one tag may carry.
pub struct ClassAllowance {
    pub tag: String,
    pub classes: Vec<String>,
}

/// What the sanitizer lets through beyond its built-in defaults: extra tags,
/// attributes allowed on every tag, and per-tag allowed `class` values.
pub struct AllowList {
    pub tags: Vec<String>,
    pub generic_attributes: Vec<String>,
    pub classes: Vec<ClassAllowance>,
}

pub ghost struct AllowListView {
    pub tags: Seq<Seq<char>>,
    pub generic_attributes: Seq<Seq<char>>,
    pub classes: Seq<(Seq<char>, Seq<Seq<char>>)>,
}

impl View for AllowList {
    type V = AllowListView;

    open spec fn view(&self) -> AllowListView {
        AllowListView {
            tags: string_views(self.tags@),
            generic_attributes: string_views(self.generic_attributes@),
            classes: self.classes@.map_values(
                |c: ClassAllowance| (c.tag@, string_views(c.classes@)),
            ),
        }
    }
}

/// A sanitization policy: an allow-list, or a bypass that lets everything through.
pub struct SanitizationPolicy {
    pub bypass: bool,
    pub allow: AllowList,
}

/// What ammonia's cleaner makes of `html` under its default policy widened by `allow`.
pub uninterp spec fn ammonia_clean(html: Seq<char>, allow: AllowListView) -> Seq<char>;

/// Tags that the cleaner reserves for itself: their content is always
/// removed, or they are not supported at all.
pub open spec fn reserved_tag(t: Seq<char>) -> bool {
    t == "script"@ || t == "style"@ || t == "animate"@ || t == "animateTransform"@
        || t == "animateMotion"@ || t == "animateColor"@ || t == "set"@
}

/// An allow-list that the cleaner accepts: no reserved tag, no `rel`
/// attribute (the cleaner sets it on links itself), and no generic `class`
/// attribute beside a class allow-list.
pub open spec fn accepted(a: AllowListView) -> bool {
    &&& forall|i: int| 0 <= i < a.tags.len() ==> !reserved_tag(#[trigger] a.tags[i])
    &&& !a.generic_attributes.contains("rel"@)
    &&& a.classes.len() > 0 ==> !a.generic_attributes.contains("class"@)
}

/// What sanitizing `html` under a policy gives.
pub open spec fn sanitize_spec(html: Seq<char>, bypass: bool, allow: AllowListView) -> Seq<char> {
    if bypass {
        html
    } else {
        ammonia_clean(html, allow)
    }
}

/// Relies on ammonia::Builder: the default builder with the given tags and
/// generic attributes added and the class allow-list set, then `clean`; it
/// panics on an allow-list that `accepted` leaves out.
#[verifier::external_body]
fn clean_with(html: &str, allow: &AllowList) -> (r: String)
    requires
        accepted(allow@),
    ensures
        r@ == ammonia_clean(html@, allow@),
{
    let classes: HashMap<&str, HashSet<&str>> = allow.classes.iter().map(
        |c| (c.tag.as_str(), c.classes.iter().map(|n| n.as_str()).collect()),
    ).collect();
    ammonia::Builder::default().add_tags(&allow.tags).add_generic_attributes(
        &allow.generic_attributes,
    ).allowed_classes(classes).clean(html).to_string()
}

fn is_reserved_tag(t: &str) -> (r: bool)
    ensures
        r == reserved_tag(t@),
{
    str_eq(t, "script") || str_eq(t, "style") || str_eq(t, "animate") || str_eq(
        t,
        "animateTransform",
    ) || str_eq(t, "animateMotion") || str_eq(t, "animateColor") || str_eq(t, "set")
}

impl AllowList {
    /// Whether the cleaner accepts this allow-list.
    pub fn is_accepted(&self) -> (r: bool)
        ensures
            r == accepted(self@),
    {
        let ghost tags = self@.tags;
        let mut i: usize = 0;
        while i < self.tags.len()
            invariant
                i <= self.tags.len(),
                tags == self@.tags,
                forall|j: int| 0 <= j < i ==> !reserved_tag(#[trigger] tags[j]),
            decreases self.tags.len() - i,
        {
            if is_reserved_tag(self.tags[i].as_str()) {
                assert(reserved_tag(tags[i as int]));
                return false;
            }
            i = i + 1;
        }
        if contains_entry(&self.generic_attributes, "rel") {
            return false;
        }
        if self.classes.len() > 0 && contains_entry(&self.generic_attributes, "class") {
            return false;
        }
        true
    }
}

/// Sanitizes `html`: unchanged under a bypass, else cleaned by the allow-list.
pub fn sanitize(html: &str, policy: &SanitizationPolicy) -> (r: String)
    requires
        policy.bypass || accepted(policy.allow@),
    ensures
        r@ == sanitize_spec(html@, policy.bypass, policy.allow@),
        policy.bypass ==> r@ == html@,
{
    if policy.bypass {
        String::from_str(html)
    } else {
        clean_with(html, &policy.allow)
    }
}

/// Sanitizes `html` where the policy allows it: `None` where the policy
/// neither bypasses nor holds an allow-list that the cleaner accepts.
pub fn try_sanitize(html: &str, policy: &SanitizationPolicy) -> (r: Option<String>)
    ensures
        r is Some <==> (policy.bypass || accepted(policy.allow@)),
        r matches Some(s) ==> s@ == sanitize_spec(html@, policy.bypass, policy.allow@),
{
    if policy.bypass || policy.allow.is_accepted() {
        Some(sanitize(html, policy))
    } else {
        None
    }
}

/// Bypass identity: under a bypass policy the sanitizer hands back its input.
pub proof fn lemma_bypass_identity(html: Seq<char>, allow: AllowListView)
    ensures
        sanitize_spec(html, true, allow) == html,
{
}

fn strings1(a: &str) -> (r: Vec<String>)
    ensures
        string_views(r@) == seq![a@],
{
    let mut v: Vec<String> = Vec::new();
    v.push(String::from_str(a));
    assert(string_views(v@) =~= seq![a@]);
    v
}

impl SanitizationPolicy {
    /// The policy the checkbox fragments and highlighted code need: `input`
    /// elements, `style`, `type` and `checked` attributes, and the classes
    /// `form-check-input` on `input` and `form-check` on `div`.
    pub fn standard(bypass: bool) -> (r: SanitizationPolicy)
        ensures
            r.bypass == bypass,
            r.allow@ == standard_allow_list(),
            accepted(r.allow@),
    {
        let tags = strings1("input");
        let mut attributes: Vec<String> = Vec::new();
        attributes.push(String::from_str("style"));
        attributes.push(String::from_str("type"));
        attributes.push(String::from_str("checked"));
        let mut classes: Vec<ClassAllowance> = Vec::new();
        classes.push(ClassAllowance { tag: String::from_str("input"), classes: strings1("form-check-input") });
        classes.push(ClassAllowance { tag: String::from_str("div"), classes: strings1("form-check") });
        let allow = AllowList { tags, generic_attributes: attributes, classes };
        proof {
            assert(allow@.generic_attributes =~= seq!["style"@, "type"@, "checked"@]);
            assert(allow@.classes =~= seq![
                ("input"@, seq!["form-check-input"@]),
                ("div"@, seq!["form-check"@]),
            ]);
            assert(allow@ == standard_allow_list());
            lemma_standard_accepted();
        }
        SanitizationPolicy { bypass, allow }
    }
}

pub open spec fn standard_allow_list() -> AllowListView {
    AllowListView {
        tags: seq!["input"@],
        generic_attributes: seq!["style"@, "type"@, "checked"@],
        classes: seq![("input"@, seq!["form-check-input"@]), ("div"@, seq!["form-check"@])],
    }
}

proof fn lemma_standard_accepted()
    ensures
        accepted(standard_allow_list()),
{
    reveal_strlit("input");
    reveal_strlit("script");
    reveal_strlit("style");
    reveal_strlit("animate");
    reveal_strlit("animateTransform");
    reveal_strlit("animateMotion");
    reveal_strlit("animateColor");
    reveal_strlit("set");
    reveal_strlit("type");
    reveal_strlit("checked");
    reveal_strlit("rel");
    reveal_strlit("class");
    let a = standard_allow_list();
    assert(a.tags[0][0] != "script"@[0]);
    assert(a.tags[0][0] != "style"@[0]);
    assert(a.tags[0][0] != "set"@[0]);
    assert(a.tags[0] != "animate"@);
    assert(a.tags[0] != "animateTransform"@);
    assert(a.tags[0] != "animateMotion"@);
    assert(a.tags[0] != "animateColor"@);
    let ga = a.generic_attributes;
    assert forall|i: int| 0 <= i < ga.len() implies ga[i] != "rel"@ && ga[i] != "class"@ by {
        if i == 0 {
            assert(ga[i][0] != "class"@[0]);
            assert(ga[i].len() != "rel"@.len());
        } else {
            assert(ga[i].len() != "rel"@.len());
            assert(ga[i].len() != "class"@.len());
        }
    }
}

} // verus!
