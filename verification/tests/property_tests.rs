use memoizer::Memoizer;
use std::cell::Cell;

/* The wrapped function runs at most once per distinct argument: repeated
 * lookups of an equal argument are answered from the cache.
 */
#[test]
fn function_runs_at_most_once_per_argument() {
    let calls = Cell::new(0u32);
    let mut add_two = Memoizer::new(|n: u32| {
        calls.set(calls.get() + 1);
        n + 2
    });

    assert_eq!(4, add_two.value(2));
    assert_eq!(4, add_two.value(2));
    assert_eq!(4, add_two.value(2));
    assert_eq!(1, calls.get());

    assert_eq!(5, add_two.value(3));
    assert_eq!(1 + 1, calls.get());
}

/* Caching a result for one argument neither changes nor precomputes the
 * result for a distinct argument; each key is computed once, on first
 * access.
 */
#[test]
fn distinct_keys_are_independent() {
    let calls = Cell::new(0u32);
    let mut square = Memoizer::new(|n: i64| {
        calls.set(calls.get() + 1);
        n * n
    });

    assert_eq!(49, square.value(7));
    assert_eq!(1, calls.get());

    // A different key is computed independently...
    assert_eq!(64, square.value(8));
    assert_eq!(2, calls.get());

    // ...and the first key's entry is still intact.
    assert_eq!(49, square.value(7));
    assert_eq!(2, calls.get());
}

/* Mutating the caller's original argument after a lookup does not change
 * the stored key: a later lookup with the original value is still a hit
 * and still returns the first result.
 */
#[test]
fn mutating_original_argument_leaves_cache_intact() {
    let calls = Cell::new(0u32);
    let mut calc = Memoizer::new(|v: Vec<u32>| {
        calls.set(calls.get() + 1);
        v.len()
    });

    let mut original = vec![1, 2, 3];
    assert_eq!(3, calc.value(original.clone()));
    assert_eq!(1, calls.get());

    // Mutate the caller's own copy; the cache stored its own duplicate.
    original[0] = 99;
    original.push(4);

    assert_eq!(3, calc.value(vec![1, 2, 3]));
    assert_eq!(1, calls.get());
}

/* Mutating a returned value does not corrupt the stored result. */
#[test]
fn mutating_returned_value_leaves_cache_intact() {
    let mut shout = Memoizer::new(|s: String| {
        let mut r = s.clone();
        r.push('!');
        r
    });

    let mut first = shout.value(String::from("hi"));
    assert_eq!("hi!", first);

    first.push_str("???");

    assert_eq!("hi!", shout.value(String::from("hi")));
}

/* String keys and structured (multi-field) values behave the same way. */
#[test]
fn string_keys_and_structured_values() {
    let mut stats = Memoizer::new(|s: String| (s.len(), s.chars().count()));

    assert_eq!((5, 5), stats.value(String::from("hello")));
    assert_eq!((5, 5), stats.value(String::from("hello")));
    assert_eq!((0, 0), stats.value(String::new()));
}
