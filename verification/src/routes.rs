//! The screens of the app and the paths they are reached by.
use vstd::prelude::*;

use crate::text::{
    decimal, is_ascii_digit, lemma_decimal_digits, push_signed_decimal, push_str, signed_decimal,
    string_from_chars,
};

verus! {

/// A screen of the app: the trip list, or one of a trip's screens.
#[derive(Debug, Clone, Copy, PartialEq, Eq, Structural)]
pub enum Route {
    Home {},
    Checklist { trip_id: i64 },
    Documentation { trip_id: i64 },
    Calendar { trip_id: i64 },
}

/// The path of a route: `/` for the trip list, else
/// `/trip/<id>/<screen>`.
pub open spec fn route_path(route: Route) -> Seq<char> {
    match route {
        Route::Home {  } => "/"@,
        Route::Checklist { trip_id } => "/trip/"@ + signed_decimal(trip_id as int) + "/checklist"@,
        Route::Documentation { trip_id } => "/trip/"@ + signed_decimal(trip_id as int)
            + "/documentation"@,
        Route::Calendar { trip_id } => "/trip/"@ + signed_decimal(trip_id as int) + "/calendar"@,
    }
}

impl Route {
    /// The route's path.
    pub fn to_string(&self) -> (r: String)
        ensures
            r@ == route_path(*self),
    {
        let mut out: Vec<char> = Vec::new();
        match self {
            Route::Home {  } => push_str(&mut out, "/"),
            Route::Checklist { trip_id } => {
                push_str(&mut out, "/trip/");
                push_signed_decimal(&mut out, *trip_id);
                push_str(&mut out, "/checklist");
            },
            Route::Documentation { trip_id } => {
                push_str(&mut out, "/trip/");
                push_signed_decimal(&mut out, *trip_id);
                push_str(&mut out, "/documentation");
            },
            Route::Calendar { trip_id } => {
                push_str(&mut out, "/trip/");
                push_signed_decimal(&mut out, *trip_id);
                push_str(&mut out, "/calendar");
            },
        }
        assert(out@ =~= route_path(*self));
        string_from_chars(out.as_slice())
    }
}

/// The rendering of a number holds digits and at most a leading `-`, so no
/// `/`; and different numbers render differently.
proof fn lemma_signed_decimal_text(a: int, b: int)
    ensures
        forall|i: int| 0 <= i < signed_decimal(a).len() ==> #[trigger] signed_decimal(a)[i] != '/',
        signed_decimal(a) == signed_decimal(b) ==> a == b,
{
    let na: nat = if a < 0 {
        (-a) as nat
    } else {
        a as nat
    };
    let nb: nat = if b < 0 {
        (-b) as nat
    } else {
        b as nat
    };
    lemma_decimal_digits(na);
    lemma_decimal_digits(nb);
    let sa = signed_decimal(a);
    let sb = signed_decimal(b);
    assert forall|i: int| 0 <= i < sa.len() implies #[trigger] sa[i] != '/' by {
        if a < 0 {
            if i > 0 {
                assert(sa[i] == decimal(na)[i - 1]);
                assert(is_ascii_digit(decimal(na)[i - 1]));
            }
        } else {
            assert(is_ascii_digit(decimal(na)[i]));
        }
    }
    if sa == sb {
        assert(is_ascii_digit(decimal(na)[0]));
        assert(is_ascii_digit(decimal(nb)[0]));
        if a < 0 && b >= 0 {
            assert(sa[0] == '-');
            assert(sb[0] == decimal(nb)[0]);
        } else if a >= 0 && b < 0 {
            assert(sb[0] == '-');
            assert(sa[0] == decimal(na)[0]);
        } else if a < 0 && b < 0 {
            assert(decimal(na) =~= sa.drop_first());
            assert(decimal(nb) =~= sb.drop_first());
        }
    }
}

/// A trip route's path: `/trip/`, the id, then `/` and the screen's name.
proof fn lemma_trip_path_parts(id1: int, name1: Seq<char>, id2: int, name2: Seq<char>)
    requires
        name1.len() > 0 && name1[0] == '/',
        name2.len() > 0 && name2[0] == '/',
        "/trip/"@ + signed_decimal(id1) + name1 == "/trip/"@ + signed_decimal(id2) + name2,
    ensures
        id1 == id2,
        name1 == name2,
{
    lemma_signed_decimal_text(id1, id2);
    lemma_signed_decimal_text(id2, id1);
    let x = signed_decimal(id1);
    let y = signed_decimal(id2);
    let w = "/trip/"@ + x + name1;
    let v = "/trip/"@ + y + name2;
    assert("/trip/"@.len() == 6) by {
        reveal_strlit("/trip/");
    }
    let lx: int = x.len() as int;
    let ly: int = y.len() as int;
    if lx < ly {
        assert(w[6 + lx] == name1[0]);
        assert(v[6 + lx] == y[lx]);
        assert(false);
    } else if ly < lx {
        assert(v[6 + ly] == name2[0]);
        assert(w[6 + ly] == x[ly]);
        assert(false);
    }
    assert(x =~= w.subrange(6, 6 + lx));
    assert(y =~= v.subrange(6, 6 + ly));
    assert(name1 =~= w.subrange(6 + lx, w.len() as int));
    assert(name2 =~= v.subrange(6 + ly, v.len() as int));
}

/// Every route has a path of its own: different routes never share a path.
pub proof fn lemma_route_paths_distinct(a: Route, b: Route)
    requires
        route_path(a) == route_path(b),
    ensures
        a == b,
{
    reveal_strlit("/");
    reveal_strlit("/trip/");
    reveal_strlit("/checklist");
    reveal_strlit("/documentation");
    reveal_strlit("/calendar");
    match (a, b) {
        (Route::Home {  }, Route::Home {  }) => {},
        (Route::Home {  }, _) => {
            assert(route_path(b).len() > 1);
        },
        (_, Route::Home {  }) => {
            assert(route_path(a).len() > 1);
        },
        _ => {
            let (ia, na) = match a {
                Route::Checklist { trip_id } => (trip_id, "/checklist"@),
                Route::Documentation { trip_id } => (trip_id, "/documentation"@),
                Route::Calendar { trip_id } => (trip_id, "/calendar"@),
                Route::Home {  } => (0, "/"@),
            };
            let (ib, nb) = match b {
                Route::Checklist { trip_id } => (trip_id, "/checklist"@),
                Route::Documentation { trip_id } => (trip_id, "/documentation"@),
                Route::Calendar { trip_id } => (trip_id, "/calendar"@),
                Route::Home {  } => (0, "/"@),
            };
            assert(route_path(a) == "/trip/"@ + signed_decimal(ia as int) + na);
            assert(route_path(b) == "/trip/"@ + signed_decimal(ib as int) + nb);
            lemma_trip_path_parts(ia as int, na, ib as int, nb);
        },
    }
}

} // verus!
