use sovereign::asset::{Assets, Handle};

#[test]
fn push_assigns_dense_handles() {
    let mut assets: Assets<&str> = Assets::new();
    let a = assets.push("a");
    let b = assets.push("b");
    let c = assets.push("c");
    assert_eq!(a.idx, 0);
    assert_eq!(b.idx, 1);
    assert_eq!(c.idx, 2);
    assert_eq!(assets.len(), 3);
}

#[test]
fn get_returns_pushed_item() {
    let mut assets: Assets<u32> = Assets::new();
    let h = assets.push(7);
    let g = assets.push(9);
    assert_eq!(assets.get(h), Some(&7));
    assert_eq!(assets.get(g), Some(&9));
}

#[test]
fn get_missing_handle_is_none() {
    let mut assets: Assets<u32> = Assets::new();
    assets.push(1);
    assert_eq!(assets.get(Handle::new(1)), None);
    let empty: Assets<u32> = Assets::new();
    assert_eq!(empty.get(Handle::new(0)), None);
}

#[test]
fn handles_copy_keep_index() {
    let mut assets: Assets<u8> = Assets::new();
    assets.push(1);
    let h = assets.push(2);
    let copy = h;
    let cloned = h.clone();
    assert_eq!(copy.idx, 1);
    assert_eq!(cloned.idx, 1);
    assert_eq!(assets.get(copy), Some(&2));
}
