//! The closed allowlist of HTTP methods the proxy forwards.

use vstd::prelude::*;

verus! {

/// A method the proxy is willing to forward. The enumeration is closed:
/// any other inbound verb is refused, never passed through.
#[derive(Clone, Copy, Debug, PartialEq, Eq, Structural)]
pub enum Method {
    Get,
    Post,
    Put,
    Delete,
}

/// The bytes of `"GET"`.
pub open spec fn get_name() -> Seq<u8> {
    seq![71u8, 69u8, 84u8]
}

/// The bytes of `"POST"`.
pub open spec fn post_name() -> Seq<u8> {
    seq![80u8, 79u8, 83u8, 84u8]
}

/// The bytes of `"PUT"`.
pub open spec fn put_name() -> Seq<u8> {
    seq![80u8, 85u8, 84u8]
}

/// The bytes of `"DELETE"`.
pub open spec fn delete_name() -> Seq<u8> {
    seq![68u8, 69u8, 76u8, 69u8, 84u8, 69u8]
}

/// The method a verb name maps to, `None` when the verb is not allowed.
pub open spec fn method_of(name: Seq<u8>) -> Option<Method> {
    if name == get_name() {
        Some(Method::Get)
    } else if name == post_name() {
        Some(Method::Post)
    } else if name == put_name() {
        Some(Method::Put)
    } else if name == delete_name() {
        Some(Method::Delete)
    } else {
        None
    }
}

/// The name of an allowed method.
pub open spec fn name_of(m: Method) -> Seq<u8> {
    match m {
        Method::Get => get_name(),
        Method::Post => post_name(),
        Method::Put => put_name(),
        Method::Delete => delete_name(),
    }
}

/// `name_of` and `method_of` invert each other on the allowed methods.
pub proof fn lemma_method_name_round_trip(m: Method)
    ensures
        method_of(name_of(m)) == Some(m),
{
    match m {
        Method::Get => {},
        Method::Post => {
            assert(post_name() != get_name());
        },
        Method::Put => {
            assert(put_name() != get_name());
            assert(put_name()[1] != post_name()[1]);
        },
        Method::Delete => {
            assert(delete_name() != get_name());
            assert(delete_name() != post_name());
            assert(delete_name() != put_name());
        },
    }
}

/// Maps an inbound verb name through the allowlist: exactly `GET`, `POST`,
/// `PUT` and `DELETE` are accepted.
pub fn parse_method(name: &[u8]) -> (r: Option<Method>)
    ensures
        r == method_of(name@),
{
    if name.len() == 3 && name[0] == 71 && name[1] == 69 && name[2] == 84 {
        proof {
            assert(name@ =~= get_name());
        }
        Some(Method::Get)
    } else if name.len() == 4 && name[0] == 80 && name[1] == 79 && name[2] == 83 && name[3] == 84 {
        proof {
            assert(name@ =~= post_name());
        }
        Some(Method::Post)
    } else if name.len() == 3 && name[0] == 80 && name[1] == 85 && name[2] == 84 {
        proof {
            assert(name@ =~= put_name());
        }
        Some(Method::Put)
    } else if name.len() == 6 && name[0] == 68 && name[1] == 69 && name[2] == 76 && name[3] == 69
        && name[4] == 84 && name[5] == 69 {
        proof {
            assert(name@ =~= delete_name());
        }
        Some(Method::Delete)
    } else {
        proof {
            if name@ == get_name() {
                assert(name@.len() == 3 && name@[0] == 71u8 && name@[1] == 69u8 && name@[2]
                    == 84u8);
            }
            if name@ == post_name() {
                assert(name@.len() == 4 && name@[0] == 80u8 && name@[1] == 79u8 && name@[2] == 83u8
                    && name@[3] == 84u8);
            }
            if name@ == put_name() {
                assert(name@.len() == 3 && name@[0] == 80u8 && name@[1] == 85u8 && name@[2]
                    == 84u8);
            }
            if name@ == delete_name() {
                assert(name@.len() == 6 && name@[0] == 68u8 && name@[1] == 69u8 && name@[2] == 76u8
                    && name@[3] == 69u8 && name@[4] == 84u8 && name@[5] == 69u8);
            }
        }
        None
    }
}

/// The name of an allowed method, as bytes.
pub fn method_name(m: Method) -> (r: Vec<u8>)
    ensures
        r@ == name_of(m),
{
    let mut v: Vec<u8> = Vec::new();
    match m {
        Method::Get => {
            v.push(71);
            v.push(69);
            v.push(84);
            proof {
                assert(v@ =~= get_name());
            }
        },
        Method::Post => {
            v.push(80);
            v.push(79);
            v.push(83);
            v.push(84);
            proof {
                assert(v@ =~= post_name());
            }
        },
        Method::Put => {
            v.push(80);
            v.push(85);
            v.push(84);
            proof {
                assert(v@ =~= put_name());
            }
        },
        Method::Delete => {
            v.push(68);
            v.push(69);
            v.push(76);
            v.push(69);
            v.push(84);
            v.push(69);
            proof {
                assert(v@ =~= delete_name());
            }
        },
    }
    v
}

} // verus!
