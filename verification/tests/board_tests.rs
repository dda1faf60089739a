use bot_board::board::{new_board, LocationError, EAST, NORTH, SOUTH, WEST};
use bot_board::kilobot::Kilobot;

#[test]
fn facing_constants_are_quarter_turns() {
    assert_eq!(NORTH, 0);
    assert_eq!(EAST, 90);
    assert_eq!(SOUTH, 180);
    assert_eq!(WEST, 270);
}

#[test]
fn four_by_three_board_starts_empty() {
    let board = new_board(4, 3);
    for index in 0..12 {
        assert_eq!(board.get_bot_at_index(index).err(), Some(LocationError::NotOccupied));
    }
    assert_eq!(board.get_bot_at_index(12).err(), Some(LocationError::OutOfBounds));
    assert_eq!(board.summary(), "(width:4, height:3, number of bots:0)");
    assert_eq!(board.get_index_from_coord(3, 2), Ok(11));
    assert_eq!(board.get_index_from_coord(4, 0), Err(LocationError::OutOfBounds));
    assert_eq!(board.get_index_from_coord(0, 3), Err(LocationError::OutOfBounds));
}

#[test]
fn index_is_row_major() {
    let board = new_board(4, 3);
    for y in 0..3u8 {
        for x in 0..4u8 {
            assert_eq!(board.get_index_from_coord(x, y), Ok(x as usize + y as usize * 4));
        }
    }
    assert_eq!(board.get_index_from_coord(0, 0), Ok(0));
    assert_eq!(board.get_index_from_coord(1, 0), Ok(1));
    assert_eq!(board.get_index_from_coord(0, 1), Ok(4));
    assert_eq!(board.get_index_from_coord(2, 1), Ok(6));
}

#[test]
fn index_mapping_covers_every_cell_once() {
    let board = new_board(5, 7);
    let mut seen = vec![false; 35];
    for y in 0..7u8 {
        for x in 0..5u8 {
            let index = board.get_index_from_coord(x, y).unwrap();
            assert!(index < 35);
            assert!(!seen[index]);
            seen[index] = true;
        }
    }
    assert!(seen.iter().all(|hit| *hit));
}

#[test]
fn index_on_the_largest_board_does_not_wrap() {
    let board = new_board(255, 255);
    assert_eq!(board.get_index_from_coord(254, 254), Ok(65024));
    assert_eq!(board.get_index_from_coord(0, 1), Ok(255));
    assert_eq!(board.get_index_from_coord(1, 200), Ok(51001));
    assert_eq!(board.get_bot_at_index(65024).err(), Some(LocationError::NotOccupied));
    assert_eq!(board.get_bot_at_index(65025).err(), Some(LocationError::OutOfBounds));
    assert_eq!(board.get_index_from_coord(255, 0), Err(LocationError::OutOfBounds));
    assert_eq!(board.get_index_from_coord(0, 255), Err(LocationError::OutOfBounds));
}

#[test]
fn placed_bot_is_found_again() {
    let mut board = new_board(4, 3);
    assert_eq!(board.add_bot_location(Kilobot::new(7), 2, 1, EAST), None);
    assert_eq!(board.get_bot_at_coord(2, 1).unwrap().get_uid(), 7);
    assert_eq!(board.get_bot_at_index(6).unwrap().get_uid(), 7);
    assert_eq!(board.get_bot_at_coord(1, 2).err(), Some(LocationError::NotOccupied));
    assert_eq!(board.get_bot_at_index(5).err(), Some(LocationError::NotOccupied));
}

#[test]
fn second_placement_on_a_cell_is_refused() {
    let mut board = new_board(4, 3);
    assert_eq!(board.add_bot_location(Kilobot::new(1), 3, 2, NORTH), None);
    assert_eq!(
        board.add_bot_location(Kilobot::new(2), 3, 2, WEST),
        Some(LocationError::AlreadyOccupied)
    );
    assert_eq!(board.get_bot_at_coord(3, 2).unwrap().get_uid(), 1);
    let location = board.remove_bot_location_at_coord(3, 2).unwrap();
    assert_eq!(location.bot().get_uid(), 1);
    assert_eq!(location.get_facing(), NORTH);
    assert_eq!(board.summary(), "(width:4, height:3, number of bots:0)");
}

#[test]
fn removing_from_an_empty_cell_is_refused() {
    let mut board = new_board(4, 3);
    assert_eq!(
        board.remove_bot_location_at_coord(1, 1).err(),
        Some(LocationError::NotOccupied)
    );
    assert_eq!(board.remove_bot_location_at_index(5).err(), Some(LocationError::NotOccupied));
    assert_eq!(board.summary(), "(width:4, height:3, number of bots:0)");
}

#[test]
fn removing_a_bot_empties_its_cell() {
    let mut board = new_board(4, 3);
    assert_eq!(board.add_bot_location(Kilobot::new(11), 0, 2, WEST), None);
    assert_eq!(board.add_bot_location(Kilobot::new(12), 1, 2, EAST), None);
    assert_eq!(board.summary(), "(width:4, height:3, number of bots:2)");
    let location = board.remove_bot_location_at_index(8).unwrap();
    assert_eq!(location.bot().get_uid(), 11);
    assert_eq!(location.get_facing(), WEST);
    assert_eq!(board.get_bot_at_index(8).err(), Some(LocationError::NotOccupied));
    assert_eq!(board.get_bot_at_coord(0, 2).err(), Some(LocationError::NotOccupied));
    assert_eq!(board.remove_bot_location_at_index(8).err(), Some(LocationError::NotOccupied));
    assert_eq!(board.get_bot_at_coord(1, 2).unwrap().get_uid(), 12);
    assert_eq!(board.summary(), "(width:4, height:3, number of bots:1)");
    assert_eq!(board.add_bot_location(Kilobot::new(13), 0, 2, NORTH), None);
    assert_eq!(board.get_bot_at_coord(0, 2).unwrap().get_uid(), 13);
}

#[test]
fn out_of_bounds_is_refused_by_every_operation() {
    let mut board = new_board(4, 3);
    assert_eq!(board.add_bot_location(Kilobot::new(5), 1, 1, NORTH), None);
    for (x, y) in [(4u8, 0u8), (0, 3), (4, 3), (255, 255), (4, 1), (1, 3)] {
        assert_eq!(board.get_index_from_coord(x, y), Err(LocationError::OutOfBounds));
        assert_eq!(
            board.add_bot_location(Kilobot::new(9), x, y, NORTH),
            Some(LocationError::OutOfBounds)
        );
        assert_eq!(board.get_bot_at_coord(x, y).err(), Some(LocationError::OutOfBounds));
        assert_eq!(board.get_bot_mut_at_coord(x, y).err(), Some(LocationError::OutOfBounds));
        assert_eq!(
            board.remove_bot_location_at_coord(x, y).err(),
            Some(LocationError::OutOfBounds)
        );
    }
    for index in [12usize, 13, 1000, usize::MAX] {
        assert_eq!(board.get_bot_at_index(index).err(), Some(LocationError::OutOfBounds));
        assert_eq!(board.get_bot_mut_at_index(index).err(), Some(LocationError::OutOfBounds));
        assert_eq!(
            board.remove_bot_location_at_index(index).err(),
            Some(LocationError::OutOfBounds)
        );
    }
    assert_eq!(board.summary(), "(width:4, height:3, number of bots:1)");
    assert_eq!(board.get_bot_at_coord(1, 1).unwrap().get_uid(), 5);
}

#[test]
fn place_then_remove_hands_back_the_same_bot() {
    let mut board = new_board(4, 3);
    assert_eq!(board.add_bot_location(Kilobot::new(42), 2, 2, SOUTH), None);
    let location = board.remove_bot_location_at_coord(2, 2).unwrap();
    assert_eq!(location.get_facing(), 180);
    assert_eq!(location.bot().get_uid(), 42);
    assert_eq!(board.get_bot_at_coord(2, 2).err(), Some(LocationError::NotOccupied));
}

#[test]
fn facing_is_stored_as_given() {
    let mut board = new_board(2, 2);
    assert_eq!(board.add_bot_location(Kilobot::new(1), 0, 0, 720), None);
    assert_eq!(board.add_bot_location(Kilobot::new(2), 1, 0, 65535), None);
    assert_eq!(board.remove_bot_location_at_coord(0, 0).unwrap().get_facing(), 720);
    assert_eq!(board.remove_bot_location_at_coord(1, 0).unwrap().get_facing(), 65535);
}

#[test]
fn board_without_cells_refuses_every_location() {
    for (width, height) in [(0u8, 0u8), (0, 5), (5, 0)] {
        let mut board = new_board(width, height);
        assert_eq!(board.get_index_from_coord(0, 0), Err(LocationError::OutOfBounds));
        assert_eq!(
            board.add_bot_location(Kilobot::new(1), 0, 0, NORTH),
            Some(LocationError::OutOfBounds)
        );
        assert_eq!(board.get_bot_at_coord(0, 0).err(), Some(LocationError::OutOfBounds));
        assert_eq!(board.get_bot_at_index(0).err(), Some(LocationError::OutOfBounds));
        assert_eq!(
            board.remove_bot_location_at_coord(0, 0).err(),
            Some(LocationError::OutOfBounds)
        );
        assert_eq!(board.remove_bot_location_at_index(0).err(), Some(LocationError::OutOfBounds));
    }
    assert_eq!(new_board(0, 0).summary(), "(width:0, height:0, number of bots:0)");
    assert_eq!(new_board(0, 5).summary(), "(width:0, height:5, number of bots:0)");
    assert_eq!(new_board(0, 0).render(), "");
    assert_eq!(new_board(3, 0).render(), "");
    assert_eq!(new_board(0, 2).render(), "\n\n\n\n");
}

#[test]
fn bot_can_be_changed_where_it_stands() {
    let mut board = new_board(3, 3);
    assert_eq!(board.add_bot_location(Kilobot::new(3), 1, 1, EAST), None);
    assert_eq!(board.add_bot_location(Kilobot::new(4), 2, 2, WEST), None);
    *board.get_bot_mut_at_coord(1, 1).unwrap() = Kilobot::new(30);
    assert_eq!(board.get_bot_at_coord(1, 1).unwrap().get_uid(), 30);
    *board.get_bot_mut_at_index(8).unwrap() = Kilobot::new(40);
    assert_eq!(board.get_bot_at_index(8).unwrap().get_uid(), 40);
    assert_eq!(board.get_bot_mut_at_coord(0, 0).err(), Some(LocationError::NotOccupied));
    assert_eq!(board.get_bot_mut_at_index(0).err(), Some(LocationError::NotOccupied));
    let location = board.remove_bot_location_at_coord(1, 1).unwrap();
    assert_eq!(location.bot().get_uid(), 30);
    assert_eq!(location.get_facing(), EAST);
    assert_eq!(board.summary(), "(width:3, height:3, number of bots:1)");
}

#[test]
fn removed_location_can_be_read_and_changed() {
    let mut board = new_board(1, 1);
    assert_eq!(board.add_bot_location(Kilobot::new(8), 0, 0, NORTH), None);
    let mut location = board.remove_bot_location_at_index(0).unwrap();
    assert_eq!(location.get_facing(), 0);
    location.set_facing(WEST);
    assert_eq!(location.get_facing(), 270);
    assert_eq!(location.bot().get_uid(), 8);
    location.set_facing(1000);
    assert_eq!(location.get_facing(), 1000);
    *location.bot_mut() = Kilobot::new(80);
    assert_eq!(location.bot().get_uid(), 80);
    assert_eq!(location.get_facing(), 1000);
    assert_eq!(location.describe(), "[Bot: 80, Facing: 1000]");
}

#[test]
fn location_is_described_in_decimal() {
    let mut board = new_board(2, 1);
    assert_eq!(board.add_bot_location(Kilobot::new(65535), 0, 0, WEST), None);
    assert_eq!(board.add_bot_location(Kilobot::new(0), 1, 0, NORTH), None);
    assert_eq!(
        board.remove_bot_location_at_coord(0, 0).unwrap().describe(),
        "[Bot: 65535, Facing: 270]"
    );
    assert_eq!(board.remove_bot_location_at_coord(1, 0).unwrap().describe(), "[Bot: 0, Facing: 0]");
}

#[test]
fn render_shows_bots_and_empty_cells() {
    let mut board = new_board(2, 2);
    assert_eq!(board.render(), "(0,0) (1,0) \n\n(0,1) (1,1) \n\n");
    assert_eq!(board.add_bot_location(Kilobot::new(7), 1, 0, NORTH), None);
    assert_eq!(board.render(), "(0,0)   7   \n\n(0,1) (1,1) \n\n");
    assert_eq!(board.add_bot_location(Kilobot::new(1234), 0, 1, SOUTH), None);
    assert_eq!(board.render(), "(0,0)   7   \n\n  1234   (1,1) \n\n");
}

#[test]
fn render_writes_coordinates_of_several_digits() {
    let board = new_board(11, 1);
    assert_eq!(
        board.render(),
        "(0,0) (1,0) (2,0) (3,0) (4,0) (5,0) (6,0) (7,0) (8,0) (9,0) (10,0) \n\n"
    );
    let tall = new_board(1, 101);
    let text = tall.render();
    assert!(text.starts_with("(0,0) \n\n(0,1) \n\n"));
    assert!(text.ends_with("(0,99) \n\n(0,100) \n\n"));
}

#[test]
fn summary_counts_the_bots_on_the_board() {
    let mut board = new_board(255, 255);
    assert_eq!(board.summary(), "(width:255, height:255, number of bots:0)");
    for x in 0..12u8 {
        assert_eq!(board.add_bot_location(Kilobot::new(x as u16), x, 254, NORTH), None);
    }
    assert_eq!(board.summary(), "(width:255, height:255, number of bots:12)");
    assert_eq!(board.remove_bot_location_at_coord(3, 254).unwrap().bot().get_uid(), 3);
    assert_eq!(board.summary(), "(width:255, height:255, number of bots:11)");
}

#[test]
fn summary_of_a_full_board() {
    let mut board = new_board(20, 10);
    for y in 0..10u8 {
        for x in 0..20u8 {
            assert_eq!(board.add_bot_location(Kilobot::new(1), x, y, NORTH), None);
        }
    }
    assert_eq!(board.summary(), "(width:20, height:10, number of bots:200)");
}
