use glam::{Mat4, Vec3};
use sovereign::id::{ImageId, SamplerId};
use sovereign::scene::{
    link_nodes, placeholder_images, resolve_texture, spawn_plan, top_nodes, world_chain, SceneError,
};

#[test]
fn children_lists_give_parents() {
    let children = vec![vec![1, 2], vec![3], vec![], vec![]];
    let parents = link_nodes(&children).unwrap();
    assert_eq!(parents, vec![None, Some(0), Some(0), Some(1)]);
}

#[test]
fn child_out_of_range_is_refused() {
    let children = vec![vec![1], vec![5]];
    assert_eq!(link_nodes(&children), Err(SceneError::ChildOutOfRange { node: 1, child: 5 }));
}

#[test]
fn top_nodes_are_parentless_in_order() {
    let parents = vec![Some(2), None, None, Some(1)];
    assert_eq!(top_nodes(&parents), vec![1, 2]);
    assert_eq!(top_nodes(&Vec::new()), Vec::<usize>::new());
}

#[test]
fn chain_runs_root_to_leaf() {
    let parents = link_nodes(&vec![vec![1], vec![2], vec![], vec![]]).unwrap();
    assert_eq!(world_chain(&parents, 2), Some(vec![0, 1, 2]));
    assert_eq!(world_chain(&parents, 0), Some(vec![0]));
    assert_eq!(world_chain(&parents, 3), Some(vec![3]));
}

#[test]
fn cycle_has_no_chain() {
    let parents = vec![Some(1), Some(0), None];
    assert_eq!(world_chain(&parents, 0), None);
    let plan = spawn_plan(&parents);
    assert_eq!(plan.len(), 1);
    assert_eq!(plan[0].node, 2);
}

#[test]
fn imported_scene_spawns_every_mesh_with_composed_transform() {
    // Two top-level nodes; node 0 carries mesh 0 and has child 2 (mesh 1),
    // which has child 3 (mesh 2); node 1 carries no mesh.
    let children = vec![vec![2], vec![], vec![3], vec![]];
    let meshes = [Some(0usize), None, Some(1), Some(2)];
    let locals = [
        Mat4::from_translation(Vec3::new(1.0, 0.0, 0.0)),
        Mat4::IDENTITY,
        Mat4::from_scale(Vec3::new(2.0, 2.0, 2.0)),
        Mat4::from_translation(Vec3::new(0.0, 3.0, 0.0)),
    ];
    let parents = link_nodes(&children).unwrap();
    assert_eq!(top_nodes(&parents), vec![0, 1]);
    let plan = spawn_plan(&parents);
    assert_eq!(plan.len(), 4);
    let renderable = plan.iter().filter(|s| meshes[s.node].is_some()).count();
    assert!(renderable >= 3);
    let world: Vec<Mat4> = plan
        .iter()
        .map(|s| s.chain.iter().fold(Mat4::IDENTITY, |acc, &n| acc * locals[n]))
        .collect();
    assert_eq!(plan[3].chain, vec![0, 2, 3]);
    let expected = locals[0] * locals[2] * locals[3];
    assert_eq!(world[3], expected);
    let origin = world[3].transform_point3(Vec3::ZERO);
    assert_eq!(origin, Vec3::new(1.0, 6.0, 0.0));
    assert_eq!(world[2], locals[0] * locals[2]);
    assert_eq!(world[1], Mat4::IDENTITY);
}

#[test]
fn texture_resolves_image_and_sampler() {
    let images = vec![ImageId(4), ImageId(5)];
    let samplers = vec![SamplerId(0)];
    assert_eq!(resolve_texture(&images, &samplers, 1, Some(0)), Ok((ImageId(5), SamplerId(0))));
    assert_eq!(resolve_texture(&images, &samplers, 2, Some(0)), Err(SceneError::ImageOutOfRange { image: 2 }));
    assert_eq!(resolve_texture(&images, &samplers, 0, None), Err(SceneError::MissingSampler));
    assert_eq!(
        resolve_texture(&images, &samplers, 0, Some(1)),
        Err(SceneError::SamplerOutOfRange { sampler: 1 })
    );
}

#[test]
fn every_image_falls_back_to_checkerboard() {
    assert_eq!(placeholder_images(3, ImageId(1)), vec![ImageId(1); 3]);
    assert!(placeholder_images(0, ImageId(1)).is_empty());
}
