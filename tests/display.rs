use linear_algebra::display::{grid_text3, grid_text4};

fn texts4(values: [[i32; 4]; 4]) -> [[String; 4]; 4] {
    values.map(|row| row.map(|e| e.to_string()))
}

#[test]
fn grid_text4_aligns_and_centres_columns() {
    let t = texts4([[1, -20, 3, 4], [100, 5, 6, 7], [8, 9, 10, 11], [0, 0, 0, 1]]);
    assert_eq!(grid_text4(&t), "\n⎡1  -20 3  4⎤\n⎢100  5  6  7⎥\n⎢8   9  10 11⎥\n⎣0   0  0  1⎦\n");
}

#[test]
fn grid_text3_brackets_three_rows() {
    let t = [[1, 22, 3], [-4, 5, 666], [7, 8, 9]].map(|row| row.map(|e: i32| e.to_string()));
    assert_eq!(grid_text3(&t), "\n⎡1  22  3⎤\n⎢-4 5  666⎥\n⎣7  8   9⎦\n");
}

#[test]
fn grid_text_trims_padding_at_the_row_ends() {
    let t = [["ab", "", "x"], ["", "c", ""], ["", "", "long"]].map(|row| row.map(String::from));
    assert_eq!(grid_text3(&t), "\n⎡ab    x⎤\n⎢c⎥\n⎣long⎦\n");
}
