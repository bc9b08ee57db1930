//! Fixed user-facing message texts.

use vstd::prelude::*;

verus! {

use vstd::string::StringExecFns;

/// The greeting posted into a chat that first contacts the bot.
pub open spec fn appstore_message_spec() -> Seq<char> {
    "Welcome to the xdcstore!"@
}

pub fn appstore_message() -> (r: &'static str)
    ensures
        r@ == appstore_message_spec(),
{
    "Welcome to the xdcstore!"
}

/// `parts` joined with `sep` between neighbouring elements.
pub open spec fn join_spec(parts: Seq<Seq<char>>, sep: Seq<char>) -> Seq<char>
    decreases parts.len(),
{
    if parts.len() == 0 {
        Seq::empty()
    } else if parts.len() == 1 {
        parts[0]
    } else {
        join_spec(parts.drop_last(), sep) + sep + parts.last()
    }
}

/// Joins the given strings with `sep`.
pub fn join_strings(parts: &Vec<String>, sep: &str) -> (r: String)
    ensures
        r@ == join_spec(parts@.map_values(|p: String| p@), sep@),
{
    let ghost views = parts@.map_values(|p: String| p@);
    let mut acc = String::new();
    let mut i: usize = 0;
    while i < parts.len()
        invariant
            i <= parts.len(),
            views == parts@.map_values(|p: String| p@),
            acc@ == join_spec(views.take(i as int), sep@),
        decreases parts.len() - i,
    {
        if i > 0 {
            acc.append(sep);
        }
        acc.append(parts[i].as_str());
        proof {
            assert(views.take(i + 1).drop_last() =~= views.take(i as int));
            assert(views.take(i + 1).last() == views[i as int]);
        }
        i = i + 1;
    }
    proof {
        assert(views.take(parts@.len() as int) =~= views);
    }
    acc
}

/// The announcement posted into a freshly created review group: it names
/// the assigned publisher and the assigned testers.
pub open spec fn creat_review_group_init_message_spec(
    testers: Seq<Seq<char>>,
    publisher: Seq<char>,
) -> Seq<char> {
    "Publisher: ["@ + publisher + "] \nTesters: ["@ + join_spec(testers, ","@) + "]"@
}

pub fn creat_review_group_init_message(testers: &Vec<String>, publisher: &String) -> (r: String)
    ensures
        r@ == creat_review_group_init_message_spec(
            testers@.map_values(|t: String| t@),
            publisher@,
        ),
{
    let mut s = String::from_str("Publisher: [");
    s.append(publisher.as_str());
    s.append("] \nTesters: [");
    let joined = join_strings(testers, ",");
    s.append(joined.as_str());
    s.append("]");
    proof {
        assert(s@ =~= creat_review_group_init_message_spec(
            testers@.map_values(|t: String| t@),
            publisher@,
        ));
    }
    s
}

} // verus!
