// BT.601 combined downscale + RGBA to I420 in one pass.
// Each thread processes 4 horizontally adjacent dst pixels, packs into one uint.
// phase 0: write Y plane (dst_width x dst_height)
// phase 1: write U/V planes ((dst_width/2) x (dst_height/2))
cbuffer Params : register(b0) {
    uint src_width;
    uint src_height;
    uint dst_width;
    uint dst_height;
    uint phase;
    uint _pad0;
    uint _pad1;
    uint _pad2;
};
Texture2D<float4> rgbaTex : register(t0);
RWByteAddressBuffer outY : register(u0);
RWByteAddressBuffer outU : register(u1);
RWByteAddressBuffer outV : register(u2);

SamplerState linearSampler : register(s0);

static const float3 kY  = float3(0.299, 0.587, 0.114);
static const float kCbScale = 1.0 / 1.772;
static const float kCrScale = 1.0 / 1.402;

float4 sampleBilinear(float2 uv) {
    return rgbaTex.SampleLevel(linearSampler, uv, 0);
}

[numthreads(16, 16, 1)]
void main(uint3 gid : SV_GroupID, uint3 tid : SV_GroupThreadID) {
    uint x4 = (gid.x * 16u + tid.x) * 4u;
    uint y  = gid.y * 16u + tid.y;
    float dw = (float)dst_width;
    float dh = (float)dst_height;
    if (phase == 0u) {
        if (x4 >= dst_width || y >= dst_height) return;
        uint packed = 0u;
        [unroll] for (uint i = 0u; i < 4u; i++) {
            uint xi = x4 + i;
            float2 uv = float2((xi + 0.5) / dw, (y + 0.5) / dh);
            float4 c = sampleBilinear(uv);
            uint b = (uint)(saturate(dot(c.rgb, kY)) * 255.0);
            packed |= (b << (i * 8u));
        }
        outY.Store((y * dst_width + x4), packed);
    } else {
        uint uw = dst_width  >> 1u;
        uint uh = dst_height >> 1u;
        if (x4 >= uw || y >= uh) return;
        uint packed_u = 0u;
        uint packed_v = 0u;
        [unroll] for (uint i = 0u; i < 4u; i++) {
            uint cx = x4 + i;
            if (cx >= uw) break;
            float2 uv00 = float2((cx * 2u + 0.5) / dw, (y * 2u + 0.5) / dh);
            float2 uv10 = float2((cx * 2u + 1.5) / dw, (y * 2u + 0.5) / dh);
            float2 uv01 = float2((cx * 2u + 0.5) / dw, (y * 2u + 1.5) / dh);
            float2 uv11 = float2((cx * 2u + 1.5) / dw, (y * 2u + 1.5) / dh);
            float3 avg = (sampleBilinear(uv00).rgb + sampleBilinear(uv10).rgb
                        + sampleBilinear(uv01).rgb + sampleBilinear(uv11).rgb) * 0.25;
            float Y  = dot(avg, kY);
            uint ub = (uint)(saturate((avg.b - Y) * kCbScale + 0.5) * 255.0);
            uint vb = (uint)(saturate((avg.r - Y) * kCrScale + 0.5) * 255.0);
            packed_u |= (ub << (i * 8u));
            packed_v |= (vb << (i * 8u));
        }
        outU.Store((y * uw + x4), packed_u);
        outV.Store((y * uw + x4), packed_v);
    }
}
