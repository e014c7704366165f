//! Structured values addressed by paths: lookup of a path segment in a
//! value, and the full path walk used to read a nested entry.

use vstd::prelude::*;

verus! {

/// One step of a path: an object key or an array index.
pub enum SubPath {
    Key(String),
    Index(usize),
}

/// A structured value: scalars, arrays, string-keyed objects, and links to
/// other stored values by content root.
pub enum IpldValue {
    U64(u64),
    I64(i64),
    Bytes(Vec<u8>),
    Text(String),
    Bool(bool),
    Null,
    Array(Vec<IpldValue>),
    Object(Vec<(String, IpldValue)>),
    Link(u64),
}

/// The value the first entry carrying `key` holds, if any.
pub open spec fn spec_lookup(entries: Seq<(String, IpldValue)>, key: Seq<char>) -> Option<
    IpldValue,
>
    decreases entries.len(),
{
    if entries.len() == 0 {
        None
    } else if entries[0].0@ == key {
        Some(entries[0].1)
    } else {
        spec_lookup(entries.subrange(1, entries.len() as int), key)
    }
}

/// The value one path step leads to: an object resolves a key, an array an
/// in-bounds index; everything else resolves nothing.
pub open spec fn spec_resolve(v: IpldValue, p: SubPath) -> Option<IpldValue> {
    match p {
        SubPath::Key(k) => match v {
            IpldValue::Object(entries) => spec_lookup(entries@, k@),
            _ => None,
        },
        SubPath::Index(i) => match v {
            IpldValue::Array(items) => if (i as int) < items@.len() {
                Some(items@[i as int])
            } else {
                None
            },
            _ => None,
        },
    }
}

/// Whether one path step can be resolved in the value.
#[verifier::loop_isolation(false)]
pub fn can_resolve(ipld: &IpldValue, sub_path: &SubPath) -> (r: bool)
    ensures
        r == (spec_resolve(*ipld, *sub_path) is Some),
{
    match sub_path {
        SubPath::Key(key) => {
            match ipld {
                IpldValue::Object(entries) => {
                    let mut i: usize = 0;
                    proof {
                        assert(entries@.subrange(0, entries@.len() as int) =~= entries@);
                    }
                    while i < entries.len()
                        invariant
                            0 <= i <= entries@.len(),
                            spec_lookup(
                                entries@.subrange(i as int, entries@.len() as int),
                                key@,
                            ) == spec_lookup(entries@, key@),
                        decreases entries@.len() - i,
                    {
                        let ghost tail = entries@.subrange(i as int, entries@.len() as int);
                        if entries[i].0 == *key {
                            proof {
                                assert(tail[0] == entries@[i as int]);
                                assert(spec_lookup(tail, key@) == Some(tail[0].1));
                                assert(*sub_path is Key && sub_path->Key_0 == *key);
                                assert(*ipld is Object && ipld->Object_0 == *entries);
                                assert(spec_resolve(*ipld, *sub_path) == spec_lookup(
                                    entries@,
                                    key@,
                                ));
                            }
                            return true;
                        }
                        proof {
                            assert(tail.subrange(1, tail.len() as int) =~= entries@.subrange(
                                i as int + 1,
                                entries@.len() as int,
                            ));
                        }
                        i = i + 1;
                    }
                    false
                },
                _ => false,
            }
        },
        SubPath::Index(index) => {
            match ipld {
                IpldValue::Array(items) => *index < items.len(),
                _ => false,
            }
        },
    }
}

/// Resolve one path step; the step must be resolvable.
#[verifier::loop_isolation(false)]
pub fn resolve<'a>(ipld: &'a IpldValue, sub_path: &SubPath) -> (r: &'a IpldValue)
    requires
        spec_resolve(*ipld, *sub_path) is Some,
    ensures
        *r == spec_resolve(*ipld, *sub_path).unwrap(),
{
    match sub_path {
        SubPath::Key(key) => {
            match ipld {
                IpldValue::Object(entries) => {
                    let mut i: usize = 0;
                    proof {
                        assert(entries@.subrange(0, entries@.len() as int) =~= entries@);
                    }
                    while i < entries.len()
                        invariant
                            0 <= i <= entries@.len(),
                            spec_lookup(
                                entries@.subrange(i as int, entries@.len() as int),
                                key@,
                            ) == spec_lookup(entries@, key@),
                            spec_lookup(entries@, key@) is Some,
                        decreases entries@.len() - i,
                    {
                        let ghost tail = entries@.subrange(i as int, entries@.len() as int);
                        if entries[i].0 == *key {
                            proof {
                                assert(tail[0] == entries@[i as int]);
                                assert(spec_lookup(tail, key@) == Some(tail[0].1));
                                assert(*sub_path is Key && sub_path->Key_0 == *key);
                                assert(*ipld is Object && ipld->Object_0 == *entries);
                                assert(spec_resolve(*ipld, *sub_path) == spec_lookup(
                                    entries@,
                                    key@,
                                ));
                            }
                            return &entries[i].1;
                        }
                        proof {
                            assert(tail.subrange(1, tail.len() as int) =~= entries@.subrange(
                                i as int + 1,
                                entries@.len() as int,
                            ));
                        }
                        i = i + 1;
                    }
                    proof {
                        assert(entries@.subrange(
                            entries@.len() as int,
                            entries@.len() as int,
                        ) =~= Seq::<(String, IpldValue)>::empty());
                        assert(false);
                    }
                    ipld
                },
                _ => {
                    proof {
                        assert(false);
                    }
                    ipld
                },
            }
        },
        SubPath::Index(index) => {
            match ipld {
                IpldValue::Array(items) => &items[*index],
                _ => {
                    proof {
                        assert(false);
                    }
                    ipld
                },
            }
        },
    }
}

/// The value a whole path leads to: arrays and objects are stepped into,
/// scalars absorb the remaining steps unchanged, and a step that cannot be
/// taken resolves nothing.
pub open spec fn spec_cat(v: IpldValue, path: Seq<SubPath>) -> Option<IpldValue>
    decreases path.len(),
{
    if path.len() == 0 {
        Some(v)
    } else {
        match v {
            IpldValue::Array(items) => match path[0] {
                SubPath::Index(i) => if (i as int) < items@.len() {
                    spec_cat(items@[i as int], path.subrange(1, path.len() as int))
                } else {
                    None
                },
                SubPath::Key(_) => None,
            },
            IpldValue::Object(entries) => match path[0] {
                SubPath::Key(k) => match spec_lookup(entries@, k@) {
                    Some(next) => spec_cat(next, path.subrange(1, path.len() as int)),
                    None => None,
                },
                SubPath::Index(_) => None,
            },
            _ => spec_cat(v, path.subrange(1, path.len() as int)),
        }
    }
}

/// The path resolver over structured values.
pub struct CborIpld;

impl CborIpld {
    /// Given any value and a path, resolve the path and return the value at
    /// the end. The path must be resolvable in the value.
    #[verifier::loop_isolation(false)]
    pub fn cat<'a>(&self, obj: &'a IpldValue, path: &Vec<SubPath>) -> (r: &'a IpldValue)
        requires
            spec_cat(*obj, path@) is Some,
        ensures
            *r == spec_cat(*obj, path@).unwrap(),
    {
        let mut cur: &'a IpldValue = obj;
        let mut i: usize = 0;
        proof {
            assert(path@.subrange(0, path@.len() as int) =~= path@);
        }
        while i < path.len()
            invariant
                0 <= i <= path@.len(),
                spec_cat(*cur, path@.subrange(i as int, path@.len() as int)) == spec_cat(
                    *obj,
                    path@,
                ),
                spec_cat(*obj, path@) is Some,
            decreases path@.len() - i,
        {
            let ghost tail = path@.subrange(i as int, path@.len() as int);
            proof {
                assert(tail.subrange(1, tail.len() as int) =~= path@.subrange(
                    i as int + 1,
                    path@.len() as int,
                ));
            }
            match cur {
                IpldValue::Array(items) => {
                    match &path[i] {
                        SubPath::Index(idx) => {
                            proof {
                                assert((*idx as int) < items@.len());
                            }
                            cur = &items[*idx];
                        },
                        SubPath::Key(_) => {
                            proof {
                                assert(false);
                            }
                        },
                    }
                },
                IpldValue::Object(entries) => {
                    match &path[i] {
                        SubPath::Key(_) => {
                            cur = resolve(cur, &path[i]);
                        },
                        SubPath::Index(_) => {
                            proof {
                                assert(false);
                            }
                        },
                    }
                },
                _ => (),
            }
            i = i + 1;
        }
        proof {
            assert(path@.subrange(path@.len() as int, path@.len() as int) =~= Seq::<
                SubPath,
            >::empty());
        }
        cur
    }
}

/// A statistics record for a stored node: mostly sizes.
#[derive(Debug)]
pub struct NodeStat {
    pub hash: String,
    /// Number of links in the link table.
    pub num_links: u64,
    /// Size of the raw, encoded data.
    pub block_size: u64,
    /// Size of the links segment.
    pub links_size: u64,
    /// Size of the data segment.
    pub data_size: u64,
    /// Cumulative size of the object and its references.
    pub cumulative_size: u64,
}

/// A failure to resolve a path against a stored node.
#[derive(Clone, Copy, PartialEq, Eq, Structural, Debug)]
pub enum ResolveError {
    /// The path names no held value.
    NotFound,
}

/// Resolution of paths against a stored node, for node implementations to
/// provide.
pub trait Resolver {
    /// Given a path, return the value at its end together with the path
    /// remainder that was not consumed.
    fn resolve(&self, path: Vec<String>) -> Result<(IpldValue, Vec<String>), ResolveError>;

    /// The paths reachable from `path`, to the given depth.
    fn tree(&self, path: String, depth: u32) -> Vec<String>;
}

} // verus!
