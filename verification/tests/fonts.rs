use phi::events::Events;
use phi::fonts::FontCache;
use phi::Phi;

/// A stand-in for the font files on disk that counts how often it is read.
struct FakeFontFiles {
    loads: usize,
}

/// A stand-in for a loaded font.
#[derive(Debug, PartialEq, Eq, Clone)]
struct FakeFont {
    path: String,
    size: i32,
    serial: usize,
}

impl FakeFontFiles {
    fn load(&mut self, path: &str, size: i32) -> Option<FakeFont> {
        if path.ends_with(".ttf") {
            self.loads += 1;
            Some(FakeFont { path: path.to_string(), size, serial: self.loads })
        } else {
            None
        }
    }
}

/// Renders `text` as the engine does: with the cached font when there is
/// one, else with a font that is loaded and cached first.
fn text_sprite(
    phi: &mut Phi<(), FakeFont>,
    files: &mut FakeFontFiles,
    text: &str,
    path: &str,
    size: i32,
) -> Option<String> {
    if phi.font(path, size).is_none() {
        let font = files.load(path, size)?;
        phi.cache_font(path, size, font);
    }
    let font = phi.font(path, size)?;
    Some(format!("{}@{}#{}:{}", font.path, font.size, font.serial, text))
}

#[test]
fn a_new_cache_is_empty() {
    let cache: FontCache<u8> = FontCache::new();
    assert_eq!(cache.get("font.ttf", 32), None);
    assert_eq!(cache.get("", 0), None);
}

#[test]
fn a_cached_font_is_found_by_path_and_size() {
    let mut cache: FontCache<u8> = FontCache::new();
    cache.insert("font.ttf", 32, 1);
    cache.insert("font.ttf", 38, 2);
    cache.insert("other.ttf", 32, 3);
    assert_eq!(cache.get("font.ttf", 32), Some(&1));
    assert_eq!(cache.get("font.ttf", 38), Some(&2));
    assert_eq!(cache.get("other.ttf", 32), Some(&3));
    assert_eq!(cache.get("other.ttf", 38), None);
    assert_eq!(cache.get("font.tt", 32), None);
    assert_eq!(cache.get("font.ttf", -32), None);
}

#[test]
fn a_cached_font_is_not_replaced() {
    let mut cache: FontCache<u8> = FontCache::new();
    cache.insert("a.ttf", 10, 1);
    cache.insert("b.ttf", 10, 2);
    cache.insert("a.ttf", 10, 9);
    assert_eq!(cache.get("a.ttf", 10), Some(&1));
    assert_eq!(cache.get("b.ttf", 10), Some(&2));
    cache.insert("a.ttf", 11, 9);
    assert_eq!(cache.get("a.ttf", 11), Some(&9));
    assert_eq!(cache.get("a.ttf", 10), Some(&1));
}

#[test]
fn caching_a_font_twice_keeps_the_first() {
    let mut phi: Phi<(), FakeFont> = Phi::new(Events::new(), (), (800, 600));
    let first = FakeFont { path: "font.ttf".to_string(), size: 32, serial: 1 };
    let second = FakeFont { path: "font.ttf".to_string(), size: 32, serial: 2 };
    phi.cache_font("font.ttf", 32, first.clone());
    phi.cache_font("font.ttf", 32, second);
    assert_eq!(phi.font("font.ttf", 32), Some(&first));
}

#[test]
fn nothing_is_evicted() {
    let mut cache: FontCache<i32> = FontCache::new();
    for size in 0..200 {
        cache.insert("font.ttf", size, size * 2);
    }
    for size in 0..200 {
        assert_eq!(cache.get("font.ttf", size), Some(&(size * 2)));
    }
    assert_eq!(cache.get("font.ttf", 200), None);
}

#[test]
fn text_sprite_loads_a_font_once() {
    let mut phi: Phi<(), FakeFont> = Phi::new(Events::new(), (), (800, 600));
    let mut files = FakeFontFiles { loads: 0 };

    let first = text_sprite(&mut phi, &mut files, "A", "font.ttf", 32);
    assert_eq!(first, Some("font.ttf@32#1:A".to_string()));
    assert_eq!(files.loads, 1);

    let second = text_sprite(&mut phi, &mut files, "A", "font.ttf", 32);
    assert_eq!(second, Some("font.ttf@32#1:A".to_string()));
    assert_eq!(files.loads, 1);
}

#[test]
fn text_sprite_loads_each_size_of_a_font() {
    let mut phi: Phi<(), FakeFont> = Phi::new(Events::new(), (), (800, 600));
    let mut files = FakeFontFiles { loads: 0 };

    assert_eq!(
        text_sprite(&mut phi, &mut files, "Quit", "font.ttf", 32),
        Some("font.ttf@32#1:Quit".to_string())
    );
    assert_eq!(
        text_sprite(&mut phi, &mut files, "Quit", "font.ttf", 38),
        Some("font.ttf@38#2:Quit".to_string())
    );
    assert_eq!(
        text_sprite(&mut phi, &mut files, "New Game", "font.ttf", 32),
        Some("font.ttf@32#1:New Game".to_string())
    );
    assert_eq!(files.loads, 2);
}

#[test]
fn a_font_that_fails_to_load_is_not_cached() {
    let mut phi: Phi<(), FakeFont> = Phi::new(Events::new(), (), (800, 600));
    let mut files = FakeFontFiles { loads: 0 };

    assert_eq!(text_sprite(&mut phi, &mut files, "A", "missing.png", 32), None);
    assert_eq!(phi.font("missing.png", 32), None);
    assert_eq!(files.loads, 0);
}
