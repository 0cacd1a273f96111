use snake::elevations::Image;

#[test]
fn every_picture_has_its_file() {
    assert_eq!(Image::SnakeHead.path(), "res/snake/snake_ss.png");
    assert_eq!(Image::SnakeBody.path(), "res/snake/snake_body.png");
    assert_eq!(Image::Fruit.path(), "res/snake/fruit.png");
    assert_eq!(Image::FruitEffect(0).path(), "res/snake/fruit_effects_0.png");
    assert_eq!(Image::FruitEffect(2).path(), "res/snake/fruit_effects_2.png");
    assert_eq!(Image::SnakeDeath.path(), "res/snake/snake_death.png");
    assert_eq!(Image::SnakeBodyDeath.path(), "res/snake/snake_body_death.png");
}
