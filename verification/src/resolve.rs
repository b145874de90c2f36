//! Path resolution: the request's query parameters become a candidate
//! filesystem path under a configured base directory.

use vstd::prelude::*;
use vstd::string::StringExecFns;

verus! {

/// Configuration of path resolution, supplied at startup: the base
/// directory onto which the query value is concatenated, and whether a
/// fixed `.txt` extension is appended to the result.
pub struct PathConfig {
    pub base_dir: String,
    pub append_txt: bool,
}

/// Last-wins lookup of a key among query parameter pairs: the value of
/// the last pair whose name is `key`, if any.
pub open spec fn lookup_last(params: Seq<(String, String)>, key: Seq<char>) -> Option<Seq<char>>
    decreases params.len(),
{
    if params.len() == 0 {
        None
    } else if params.last().0@ == key {
        Some(params.last().1@)
    } else {
        lookup_last(params.drop_last(), key)
    }
}

/// The candidate path for a request: the value of parameter `param`
/// (a fixed default when it is absent), concatenated onto the base
/// directory, with the fixed extension appended when configured.  No
/// normalization and no containment check is performed; any problem with
/// the path surfaces later, when the target is classified.
pub open spec fn spec_resolved_path(params: Seq<(String, String)>, cfg: PathConfig) -> Seq<char> {
    let value = match lookup_last(params, "param"@) {
        Some(v) => v,
        None => "default"@,
    };
    cfg.base_dir@ + value + (if cfg.append_txt {
        ".txt"@
    } else {
        Seq::<char>::empty()
    })
}

/// The path resolver: extracts `param` (last wins on duplicates, default
/// `"default"`) and builds the candidate path `spec_resolved_path` states.
pub fn resolve_path(params: &Vec<(String, String)>, cfg: &PathConfig) -> (r: String)
    ensures
        r@ == spec_resolved_path(params@, *cfg),
{
    let key = String::from_str("param");
    let mut value: Option<String> = None;
    let mut i: usize = 0;
    while i < params.len()
        invariant
            i <= params.len(),
            key@ == "param"@,
            match value {
                Some(v) => lookup_last(params@.take(i as int), "param"@) == Some(v@),
                None => lookup_last(params@.take(i as int), "param"@) is None,
            },
        decreases params.len() - i,
    {
        proof {
            assert(params@.take(i + 1).drop_last() =~= params@.take(i as int));
            assert(params@.take(i + 1).last() == params@[i as int]);
        }
        let pair = &params[i];
        if pair.0 == key {
            value = Some(pair.1.clone());
        }
        i += 1;
    }
    proof {
        assert(params@.take(params@.len() as int) =~= params@);
    }
    let mut out = String::new();
    out.append(cfg.base_dir.as_str());
    match &value {
        Some(v) => out.append(v.as_str()),
        None => out.append("default"),
    }
    if cfg.append_txt {
        out.append(".txt");
    }
    proof {
        assert(out@ =~= spec_resolved_path(params@, *cfg));
    }
    out
}

} // verus!
