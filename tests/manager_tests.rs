use voxel_chunks::chunk::make_mesh;
use voxel_chunks::grid::GRID_SIZE;
use voxel_chunks::manager::{should_execute, CancelSignal, ChunkManager};
use voxel_chunks::mesh::MeshReference;

fn mesh_for(idx: u32) -> MeshReference {
    MeshReference { idx, vertex_data: Vec::new(), index_data: Vec::new() }
}

#[test]
fn dispatch_hands_out_increasing_ids() {
    let mut m: ChunkManager<&str> = ChunkManager::new();
    let ids: Vec<u32> = ["a", "b", "c", "d"].iter().map(|e| m.dispatch(*e)).collect();
    assert_eq!(ids, vec![1, 2, 3, 4]);
    assert_eq!(m.current_idx(), 5);
    for id in &ids {
        assert!(m.is_pending(*id));
    }
    assert!(!m.is_pending(0));
    assert!(!m.is_pending(5));
    assert_eq!(m.pending_entry(3), Some(&"c"));
}

#[test]
fn update_without_result_changes_nothing() {
    let mut m: ChunkManager<u8> = ChunkManager::new();
    m.dispatch(10);
    assert!(m.update(None).is_none());
    assert!(m.is_pending(1));
}

#[test]
fn update_drains_one_result_by_id() {
    let mut m: ChunkManager<u8> = ChunkManager::new();
    m.dispatch(10);
    m.dispatch(20);
    m.dispatch(30);
    let (entry, mesh) = m.update(Some(mesh_for(2))).unwrap();
    assert_eq!(entry, 20);
    assert_eq!(mesh.idx, 2);
    assert!(m.is_pending(1));
    assert!(!m.is_pending(2));
    assert!(m.is_pending(3));
    let (entry, _) = m.update(Some(mesh_for(1))).unwrap();
    assert_eq!(entry, 10);
    assert_eq!(m.dispatch(40), 4);
}

#[test]
fn cancelled_or_disconnected_jobs_are_skipped() {
    assert!(!should_execute(CancelSignal::Received(true)));
    assert!(!should_execute(CancelSignal::Disconnected));
    assert!(should_execute(CancelSignal::Received(false)));
    assert!(should_execute(CancelSignal::Empty));
}

#[test]
fn dispatched_chunk_result_arrives_with_matching_id() {
    let mut m: ChunkManager<(i32, i32)> = ChunkManager::new();
    let id = m.dispatch((0, 0));
    let heights = vec![vec![17usize; GRID_SIZE]; GRID_SIZE];
    let mesh = make_mesh(id, &heights);
    let (pos, mesh) = m.update(Some(mesh)).unwrap();
    assert_eq!(pos, (0, 0));
    assert_eq!(mesh.idx, id);
    assert_eq!(mesh.vertex_data.len() % 4, 0);
    assert_eq!(mesh.index_data.len() % 6, 0);
    assert!(mesh.index_data.iter().all(|&i| (i as usize) < mesh.vertex_data.len()));
    assert!(!m.is_pending(id));
}

#[test]
fn many_dispatches_give_distinct_increasing_ids() {
    let mut m: ChunkManager<usize> = ChunkManager::new();
    let ids: Vec<u32> = (0..100).map(|i| m.dispatch(i)).collect();
    assert!(ids.windows(2).all(|w| w[0] < w[1]));
    for (i, id) in ids.iter().enumerate() {
        assert_eq!(m.pending_entry(*id), Some(&i));
    }
}
