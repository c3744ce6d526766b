use image::Rgb;
use stone_maze::texture::gray_texture;

#[test]
fn shades_land_on_their_pixels() {
    let shades = vec![vec![10u8, 20, 30], vec![40, 50, 60], vec![70, 80, 90]];
    let img = gray_texture(3, &shades).image;
    assert_eq!(img.dimensions(), (3, 3));
    for x in 0..3u32 {
        for y in 0..3u32 {
            let s = shades[x as usize][y as usize];
            assert_eq!(*img.get_pixel(x, y), Rgb([s, s, s]));
        }
    }
}

#[test]
fn full_size_texture() {
    let shades: Vec<Vec<u8>> = (0..64).map(|x| (0..64).map(|y| ((x * 3 + y) % 256) as u8).collect()).collect();
    let img = gray_texture(64, &shades).image;
    assert_eq!(img.dimensions(), (64, 64));
    assert_eq!(*img.get_pixel(63, 0), Rgb([189, 189, 189]));
    assert_eq!(*img.get_pixel(5, 7), Rgb([22, 22, 22]));
}

#[test]
fn empty_texture() {
    let img = gray_texture(0, &vec![]).image;
    assert_eq!(img.dimensions(), (0, 0));
}
