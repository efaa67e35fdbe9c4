use tuis::minesweeper::menu::{GameLevel, MapSize, MenuKind};

#[test]
fn map_size_table() {
    assert_eq!(MapSize::Large.map_size(), (50, 40));
    assert_eq!(MapSize::Normal.map_size(), (40, 30));
    assert_eq!(MapSize::Small.map_size(), (20, 15));
}

#[test]
fn bomb_count_table() {
    assert_eq!(GameLevel::Hard.bomb_cnt(MapSize::Large), 500);
    assert_eq!(GameLevel::Normal.bomb_cnt(MapSize::Large), 300);
    assert_eq!(GameLevel::Easy.bomb_cnt(MapSize::Large), 200);
    assert_eq!(GameLevel::Hard.bomb_cnt(MapSize::Normal), 300);
    assert_eq!(GameLevel::Normal.bomb_cnt(MapSize::Normal), 200);
    assert_eq!(GameLevel::Easy.bomb_cnt(MapSize::Normal), 100);
    assert_eq!(GameLevel::Hard.bomb_cnt(MapSize::Small), 75);
    assert_eq!(GameLevel::Normal.bomb_cnt(MapSize::Small), 35);
    assert_eq!(GameLevel::Easy.bomb_cnt(MapSize::Small), 15);
}

#[test]
fn every_table_entry_leaves_a_free_cell() {
    for size in [MapSize::Large, MapSize::Normal, MapSize::Small] {
        let (w, h) = size.map_size();
        assert!(w >= 2 && h >= 2);
        for level in [GameLevel::Hard, GameLevel::Normal, GameLevel::Easy] {
            assert!((level.bomb_cnt(size) as u32) < w as u32 * h as u32);
        }
    }
}

#[test]
fn map_size_steps() {
    assert_eq!(MapSize::Large.up(), MapSize::Small);
    assert_eq!(MapSize::Normal.up(), MapSize::Large);
    assert_eq!(MapSize::Small.up(), MapSize::Normal);
    assert_eq!(MapSize::Large.down(), MapSize::Normal);
    assert_eq!(MapSize::Normal.down(), MapSize::Small);
    assert_eq!(MapSize::Small.down(), MapSize::Large);
}

#[test]
fn game_level_steps() {
    assert_eq!(GameLevel::Hard.up(), GameLevel::Easy);
    assert_eq!(GameLevel::Normal.up(), GameLevel::Hard);
    assert_eq!(GameLevel::Easy.up(), GameLevel::Normal);
    assert_eq!(GameLevel::Hard.down(), GameLevel::Normal);
    assert_eq!(GameLevel::Normal.down(), GameLevel::Easy);
    assert_eq!(GameLevel::Easy.down(), GameLevel::Hard);
}

#[test]
fn tiers_cycle_in_three_steps() {
    for size in [MapSize::Large, MapSize::Normal, MapSize::Small] {
        assert_eq!(size.up().up().up(), size);
        assert_eq!(size.down().down().down(), size);
        assert_eq!(size.up().down(), size);
        assert_eq!(size.down().up(), size);
        assert_ne!(size.up(), size);
        assert_ne!(size.up().up(), size);
        assert_ne!(size.down(), size);
        assert_ne!(size.down().down(), size);
    }
    for level in [GameLevel::Hard, GameLevel::Normal, GameLevel::Easy] {
        assert_eq!(level.up().up().up(), level);
        assert_eq!(level.down().down().down(), level);
        assert_eq!(level.up().down(), level);
        assert_eq!(level.down().up(), level);
        assert_ne!(level.up(), level);
        assert_ne!(level.up().up(), level);
        assert_ne!(level.down(), level);
        assert_ne!(level.down().down(), level);
    }
}

#[test]
fn tier_positions_follow_the_menu_order() {
    assert_eq!(MapSize::Large.index(), 0);
    assert_eq!(MapSize::Normal.index(), 1);
    assert_eq!(MapSize::Small.index(), 2);
    assert_eq!(GameLevel::Hard.index(), 0);
    assert_eq!(GameLevel::Normal.index(), 1);
    assert_eq!(GameLevel::Easy.index(), 2);
    for size in [MapSize::Large, MapSize::Normal, MapSize::Small] {
        assert_eq!(size.down().index(), (size.index() + 1) % 3);
        assert_eq!(size.up().index(), (size.index() + 2) % 3);
    }
    for level in [GameLevel::Hard, GameLevel::Normal, GameLevel::Easy] {
        assert_eq!(level.down().index(), (level.index() + 1) % 3);
        assert_eq!(level.up().index(), (level.index() + 2) % 3);
    }
}

#[test]
fn focus_toggles_either_way() {
    assert_eq!(MenuKind::MapSize.left(), MenuKind::GameLevel);
    assert_eq!(MenuKind::GameLevel.left(), MenuKind::MapSize);
    assert_eq!(MenuKind::MapSize.right(), MenuKind::GameLevel);
    assert_eq!(MenuKind::GameLevel.right(), MenuKind::MapSize);
}

#[test]
fn defaults_are_the_first_tiers() {
    assert_eq!(MapSize::default(), MapSize::Large);
    assert_eq!(GameLevel::default(), GameLevel::Hard);
    assert_eq!(MenuKind::default(), MenuKind::MapSize);
}
