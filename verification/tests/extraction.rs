use try_utils::Fruit;
use try_utils::IntoResult;
use try_utils::inner;
use try_utils::inner_else;
use try_utils::inner_else_bind;
use try_utils::inner_if;
use try_utils::inner_if_else;
use try_utils::inner_if_else_bind;
use try_utils::ok_if;
use try_utils::ok_if_else_bind;
use try_utils::ok_if_or;
use try_utils::some_if;
use try_utils::some_if_else_bind;

#[test]
fn simple_opt() {
    assert_eq!(inner(Some(7)), 7);
}

#[test]
#[should_panic]
fn simple_opt_fail() {
    let z: Option<i32> = None;
    inner(z);
}

#[test]
fn else_clause() {
    let x: Result<String, i32> = Err(7);
    let mut taken = false;
    let _ = inner_else(x, || {
        taken = true;
        String::new()
    });
    if !taken {
        panic!();
    }
}

#[test]
fn else_clause_2() {
    let x: Result<String, i32> = Err(7);
    let y = inner_else_bind(x, |e| {
        assert_eq!(e, 7);
        (e + 2).to_string()
    });
    assert_eq!(&y, "9");
}

#[test]
fn apple() {
    let z = Fruit::Apple(15);
    assert_eq!(
        15,
        inner_if(z, |v| match v {
            Fruit::Apple(q) => Ok(q),
            n => Err(n),
        })
    );
}

#[test]
fn if_else() {
    let z = Fruit::Apple(15);
    assert_eq!(
        15,
        inner_if_else(
            z,
            |v| match v {
                Fruit::Apple(q) => Ok(q),
                n => Err(n),
            },
            || panic!("Not an apple"),
        )
    );
}

#[test]
fn own_enum() {
    let z = Fruit::Orange(15);
    assert_eq!(7, inner_else_bind(z, |e| (e - 8) as i32));

    let z = Fruit::Apple(15);
    assert_eq!(
        9,
        inner_if_else_bind(
            z,
            |v| match v {
                Fruit::Orange(q) => Ok(q),
                n => Err(n),
            },
            |e| {
                assert_eq!(e, Fruit::Apple(15));
                9
            },
        )
    );
}

#[test]
fn some() {
    assert_eq!(
        some_if(Fruit::Apple(15), |v| match v {
            Fruit::Apple(q) => Ok(q),
            n => Err(n),
        }),
        Some(15)
    );
    assert_eq!(
        some_if(Fruit::Orange(15), |v| match v {
            Fruit::Apple(q) => Ok(q),
            n => Err(n),
        }),
        None
    );
    assert_eq!(
        some_if_else_bind(
            Fruit::Orange(15),
            |v| match v {
                Fruit::Apple(q) => Ok(q),
                n => Err(n),
            },
            |e| {
                assert_eq!(e, Fruit::Orange(15));
                Some(30)
            },
        ),
        Some(30)
    );
}

#[test]
fn ok() {
    assert_eq!(
        ok_if(Fruit::Apple(15), |v| match v {
            Fruit::Apple(q) => Ok(q),
            n => Err(n),
        }),
        Ok(15)
    );

    assert_eq!(
        ok_if(Fruit::Orange(15), |v| match v {
            Fruit::Apple(q) => Ok(q),
            n => Err(n),
        }),
        Err(Fruit::Orange(15))
    );
    assert_eq!(
        ok_if_else_bind(
            Fruit::Orange(15),
            |v| match v {
                Fruit::Apple(q) => Ok(q),
                n => Err(n),
            },
            |e| {
                assert_eq!(e, Fruit::Orange(15));
                Err(3)
            },
        ),
        Err(3)
    );

    assert_eq!(
        ok_if_or(
            Fruit::Apple(15),
            |v| match v {
                Fruit::Orange(q) => Ok(q),
                n => Err(n),
            },
            || 67,
        ),
        Err(67)
    );
    assert_eq!(
        ok_if_or(
            Fruit::Apple(15),
            |v| match v {
                Fruit::Apple(q) => Ok(q),
                n => Err(n),
            },
            || 67,
        ),
        Ok(15)
    );
}

#[test]
fn conversions() {
    let a: Result<i32, i16> = Fruit::Apple(3).into_result();
    assert_eq!(a, Ok(3));
    let o: Result<i32, i16> = Fruit::Orange(4).into_result();
    assert_eq!(o, Err(4));

    let p: Result<i32, ()> = Some(5).into_result();
    assert_eq!(p, Ok(5));
    let q: Result<i32, ()> = None::<i32>.into_result();
    assert_eq!(q, Err(()));

    let r: Result<i32, u8> = Ok::<i32, u8>(5).into_result();
    assert_eq!(r, Ok(5));
    let s: Result<i32, u8> = Err::<i32, u8>(9).into_result();
    assert_eq!(s, Err(9));
}
